use screen_recorder::errors::{FFmpegError, MenuError, WindowError};
use screen_recorder::window::{handle_window_events, HostEvent, WindowAction};

#[test]
fn menu_error_messages() {
    assert_eq!(
        MenuError::ItemCreation("denied".to_string()).message(),
        "Failed to create menu item: denied"
    );
    assert_eq!(
        MenuError::Creation("denied".to_string()).message(),
        "Failed to create menu: denied"
    );
    assert_eq!(
        MenuError::SetMenu("denied".to_string()).message(),
        "Failed to set menu: denied"
    );
}

#[test]
fn window_error_messages() {
    assert_eq!(
        WindowError::EventHandling("lost".to_string()).message(),
        "Failed to handle window event: lost"
    );
    assert_eq!(
        WindowError::NotFound("main".to_string()).message(),
        "Window not found: main"
    );
}

#[test]
fn ffmpeg_error_messages() {
    assert_eq!(
        FFmpegError::StartProcess("missing".to_string()).message(),
        "Failed to start FFmpeg process: missing"
    );
    assert_eq!(
        FFmpegError::StopProcess("stuck".to_string()).message(),
        "Failed to stop FFmpeg process: stuck"
    );
    assert_eq!(
        FFmpegError::Status("unknown".to_string()).message(),
        "Failed to get FFmpeg status: unknown"
    );
}

#[test]
fn implicit_exit_is_prevented() {
    let r = handle_window_events(&HostEvent::ExitRequested {
        exit_code_set: false,
    });
    assert!(matches!(r, Ok(WindowAction::PreventExit)));
}

#[test]
fn explicit_exit_goes_through() {
    let r = handle_window_events(&HostEvent::ExitRequested {
        exit_code_set: true,
    });
    assert!(matches!(r, Ok(WindowAction::Ignore)));
}

#[test]
fn close_request_hides_window() {
    let r = handle_window_events(&HostEvent::CloseRequested {
        label: "main".to_string(),
        window_found: true,
    });
    assert!(matches!(r, Ok(WindowAction::PreventCloseAndHide)));
}

#[test]
fn close_request_on_vanished_window() {
    let r = handle_window_events(&HostEvent::CloseRequested {
        label: "main".to_string(),
        window_found: false,
    });
    match r {
        Err(e) => assert_eq!(e.message(), "Window not found: main"),
        Ok(_) => panic!("a vanished window must be reported"),
    }
}

#[test]
fn other_events_pass_through() {
    let r = handle_window_events(&HostEvent::Other);
    assert!(matches!(r, Ok(WindowAction::Ignore)));
}
