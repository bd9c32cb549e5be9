use master_duel_translayer::process::{
    attach_process, attach_process_begin, enum_by_until, get_by_pid, open_process, AttachError,
    AttachReply, AttachRequest, AttachResult, AttachStep, Process, CONTINUE, PROCESS_NAME, STOP,
};

const PID: u32 = 4242;
const HANDLE: isize = 0x400;

/// Attaches against a system with the windows `windows`, each with the
/// process it belongs to, and returns the calls made and the result.
fn attach(
    pid: Option<u32>,
    handle: isize,
    windows: &[(isize, u32)],
    ending: AttachReply,
) -> (Vec<AttachRequest>, AttachResult) {
    let (mut state, mut request) = attach_process_begin();
    let mut calls = Vec::new();
    let mut walk = windows.iter();
    loop {
        calls.push(request);
        let reply = match request {
            AttachRequest::FindProcess { .. } => AttachReply::Pid(pid),
            AttachRequest::OpenProcess { .. } => AttachReply::Handle(handle),
            AttachRequest::EnumWindows | AttachRequest::Continue => match walk.next() {
                Some(&(hwnd, process_id)) => AttachReply::Window { hwnd, process_id },
                None => AttachReply::Ended { result: 1, last_error: Some(0) },
            },
            AttachRequest::Stop => ending,
            AttachRequest::CloseHandle { .. } => AttachReply::Nothing,
        };
        match attach_process(state, reply) {
            AttachStep::Next(next, following) => {
                state = next;
                request = following;
            }
            AttachStep::Done(result) => return (calls, result),
        }
    }
}

fn stopped() -> AttachReply {
    AttachReply::Ended { result: 0, last_error: Some(0) }
}

#[test]
fn first_window_of_the_process_is_taken() {
    let windows = [(1, 7), (2, PID), (3, PID), (4, 9)];
    let (calls, result) = attach(Some(PID), HANDLE, &windows, stopped());
    assert_eq!(
        calls,
        vec![
            AttachRequest::FindProcess { name: "masterduel.exe" },
            AttachRequest::OpenProcess { access: 0x400, inherit: false, pid: PID },
            AttachRequest::EnumWindows,
            AttachRequest::Continue,
            AttachRequest::Stop,
        ]
    );
    assert_eq!(result, Ok(Process { pid: PID, handle: HANDLE, hwnd: 2 }));
    assert_eq!(PROCESS_NAME, "masterduel.exe");
}

#[test]
fn missing_process_is_an_error() {
    let (calls, result) = attach(None, HANDLE, &[], stopped());
    assert_eq!(calls.len(), 1);
    assert_eq!(result, Err(AttachError::ProcessNotFound));
}

#[test]
fn process_that_cannot_be_opened_is_an_error() {
    let (calls, result) = attach(Some(PID), 0, &[], stopped());
    assert_eq!(calls.len(), 2);
    assert_eq!(result, Err(AttachError::OpenProcess));
}

#[test]
fn process_without_a_window_has_its_handle_closed() {
    let (calls, result) = attach(Some(PID), HANDLE, &[(1, 7), (4, 9)], stopped());
    assert_eq!(calls.last(), Some(&AttachRequest::CloseHandle { handle: HANDLE }));
    assert_eq!(result, Err(AttachError::WindowNotFound));
}

#[test]
fn failed_walk_has_the_handle_closed() {
    let failed = AttachReply::Ended { result: 0, last_error: Some(5) };
    let (calls, result) = attach(Some(PID), HANDLE, &[(2, PID)], failed);
    assert_eq!(calls.last(), Some(&AttachRequest::CloseHandle { handle: HANDLE }));
    assert_eq!(result, Err(AttachError::EnumWindows(5)));
}

#[test]
fn stopped_walk_is_no_failure() {
    assert_eq!(enum_by_until(0, Some(0)), Ok(()));
    assert_eq!(enum_by_until(0, None), Ok(()));
    assert_eq!(enum_by_until(1, Some(5)), Ok(()));
    assert_eq!(enum_by_until(0, Some(5)), Err(5));
    assert_eq!(enum_by_until(0, Some(-1)), Err(-1));
}

#[test]
fn window_is_taken_once() {
    assert_eq!(get_by_pid(PID, None, 10, 1), (None, CONTINUE));
    assert_eq!(get_by_pid(PID, None, 10, PID), (Some(10), STOP));
    assert_eq!(get_by_pid(PID, Some(10), 11, PID), (Some(10), STOP));
    assert_eq!(get_by_pid(PID, Some(10), 11, 1), (Some(10), STOP));
    assert_eq!((STOP, CONTINUE), (0, 1));
}

#[test]
fn null_handle_is_no_process() {
    assert_eq!(open_process(0), Err(AttachError::OpenProcess));
    assert_eq!(open_process(HANDLE), Ok(HANDLE));
    assert_eq!(open_process(-1), Ok(-1));
}

#[test]
fn attach_errors_say_what_is_missing() {
    assert_eq!(
        AttachError::ProcessNotFound.message(),
        "Cannot find opened Master Duel process."
    );
    assert_eq!(AttachError::OpenProcess.message(), "Unable to get handle of masterduel.exe");
    assert_eq!(AttachError::EnumWindows(5).message(), "Unable to get hwnd of masterduel.exe");
    assert_eq!(AttachError::WindowNotFound.message(), "Unable to get hwnd of masterduel.exe");
}
