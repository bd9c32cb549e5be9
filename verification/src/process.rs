//! Finding the game: its process, a handle to it, and its window.
//!
//! Attaching is a protocol with a caller that can look at the processes and
//! windows of the system. [`attach_process_begin`] names the first call,
//! [`attach_process`] takes each answer and names the next call, until it
//! hands out the [`Process`]. The windows of the system are walked one by
//! one; for each the caller reports the window and the process it belongs
//! to, and is told whether to go on. The first window of the process is the
//! one that is taken.

use vstd::prelude::*;

verus! {

/// The name of the game's executable.
pub const PROCESS_NAME: &'static str = "masterduel.exe";

/// The access that is asked of the game's process: to query information.
pub const PROCESS_ACCESS: u32 = 0x400;

/// The handle that names no object.
pub const NULL_HANDLE: isize = 0;

/// What a walk over the windows is told for a window: stop here.
pub const STOP: i32 = 0;

/// What a walk over the windows is told for a window: go on.
pub const CONTINUE: i32 = 1;

/// The game as attached to: its process, a handle to the process, and its
/// window.
#[derive(Clone, Copy, Debug, PartialEq, Eq, Structural)]
pub struct Process {
    pub pid: u32,
    pub handle: isize,
    pub hwnd: isize,
}

/// Why the game could not be attached to.
#[derive(Clone, Copy, Debug, PartialEq, Eq, Structural)]
pub enum AttachError {
    /// No process has the game's name.
    ProcessNotFound,
    /// The process could not be opened.
    OpenProcess,
    /// The walk over the windows failed, with this error of the system.
    EnumWindows(i32),
    /// No window belongs to the process.
    WindowNotFound,
}

/// What attaching comes to.
pub type AttachResult = Result<Process, AttachError>;

/// The call whose answer is awaited.
#[derive(Clone, Copy, Debug, PartialEq, Eq, Structural)]
pub enum AttachStage {
    Find,
    Open,
    Search,
    Close,
}

/// Attaching under way.
#[derive(Clone, Copy, Debug, PartialEq, Eq)]
pub struct AttachState {
    /// The call whose answer is awaited.
    pub stage: AttachStage,
    /// The process, once found.
    pub pid: u32,
    /// The handle to the process, once opened.
    pub handle: isize,
    /// The window of the process, once one was met.
    pub found: Option<isize>,
    /// The result, once it is settled and while the handle is closed.
    pub outcome: Option<AttachResult>,
}

/// A call for the caller to make.
#[derive(Clone, Copy, Debug, PartialEq, Eq)]
pub enum AttachRequest {
    /// Find the first process whose name is exactly `name`.
    FindProcess { name: &'static str },
    /// Open the process `pid` with the access `access`; `inherit` says
    /// whether processes created by this one inherit the handle.
    OpenProcess { access: u32, inherit: bool, pid: u32 },
    /// Walk over the top-level windows, reporting each.
    EnumWindows,
    /// Go on to the next window.
    Continue,
    /// Stop the walk.
    Stop,
    /// Close the handle to the process.
    CloseHandle { handle: isize },
}

/// What a call answered.
#[derive(Clone, Copy, Debug, PartialEq, Eq, Structural)]
pub enum AttachReply {
    /// The call returns nothing.
    Nothing,
    /// The process found, if any.
    Pid(Option<u32>),
    /// The handle to the process.
    Handle(isize),
    /// A window met on the walk, and the process it belongs to.
    Window { hwnd: isize, process_id: u32 },
    /// The walk is over: what it returned, and the last error of the system
    /// if there is one.
    Ended { result: i32, last_error: Option<i32> },
}

/// What one answer leads to: the next call, or the result.
#[derive(Clone, Copy, Debug, PartialEq, Eq)]
pub enum AttachStep {
    Next(AttachState, AttachRequest),
    Done(AttachResult),
}

/// How a walk over the windows ended: with an error of the system where it
/// returned zero and the system's last error is not zero, else well. A walk
/// that was stopped returns zero too, and leaves no error.
pub open spec fn walk_verdict(result: i32, last_error: Option<i32>) -> Result<(), i32> {
    if result == 0 && last_error is Some && last_error->Some_0 != 0 {
        Err(last_error->Some_0)
    } else {
        Ok(())
    }
}

/// The window taken after one more window was met: the one taken before, or
/// else this one if it belongs to the process.
pub open spec fn taken(pid: u32, found: Option<isize>, hwnd: isize, process_id: u32) -> Option<
    isize,
> {
    if found is None && process_id == pid {
        Some(hwnd)
    } else {
        found
    }
}

/// The first of the windows that belongs to the process `pid`, if any does.
pub open spec fn first_window_of(pid: u32, windows: Seq<(isize, u32)>) -> Option<isize>
    decreases windows.len(),
{
    if windows.len() == 0 {
        None
    } else if windows[0].1 == pid {
        Some(windows[0].0)
    } else {
        first_window_of(pid, windows.drop_first())
    }
}

/// The window taken after all of `windows` were met in turn.
pub open spec fn taken_over(pid: u32, found: Option<isize>, windows: Seq<(isize, u32)>) -> Option<
    isize,
>
    decreases windows.len(),
{
    if windows.len() == 0 {
        found
    } else {
        taken_over(
            pid,
            taken(pid, found, windows[0].0, windows[0].1),
            windows.drop_first(),
        )
    }
}

impl AttachState {
    /// Attaching before any call was answered.
    pub open spec fn initial() -> AttachState {
        AttachState {
            stage: AttachStage::Find,
            pid: 0,
            handle: NULL_HANDLE,
            found: None,
            outcome: None,
        }
    }

    /// The state is one that attaching can be in: there is a handle once the
    /// process was opened, a window is taken only during the walk, and a
    /// result is settled exactly while the handle is closed.
    pub open spec fn well_formed(&self) -> bool {
        match self.stage {
            AttachStage::Find | AttachStage::Open => self.handle == NULL_HANDLE && self.found
                is None && self.outcome is None,
            AttachStage::Search => self.handle != NULL_HANDLE && self.outcome is None,
            AttachStage::Close => self.handle != NULL_HANDLE && self.outcome is Some
                && self.outcome->Some_0 is Err,
        }
    }
}

/// What one answer leads to.
///
/// No process of the game's name, or a process that cannot be opened, ends
/// the attaching with that error. On the walk, the first window of the
/// process is taken and the walk is stopped. When the walk is over, a walk
/// that failed and a walk that met no window of the process end the
/// attaching with that error, once the handle to the process is closed; else
/// the process, the handle and the window are handed out.
pub open spec fn attach_step(state: AttachState, reply: AttachReply) -> AttachStep {
    match state.stage {
        AttachStage::Find => match reply {
            AttachReply::Pid(Some(pid)) => AttachStep::Next(
                AttachState { stage: AttachStage::Open, pid, ..state },
                AttachRequest::OpenProcess { access: PROCESS_ACCESS, inherit: false, pid },
            ),
            _ => AttachStep::Done(Err(AttachError::ProcessNotFound)),
        },
        AttachStage::Open => match reply {
            AttachReply::Handle(handle) if handle != NULL_HANDLE => AttachStep::Next(
                AttachState { stage: AttachStage::Search, handle, ..state },
                AttachRequest::EnumWindows,
            ),
            _ => AttachStep::Done(Err(AttachError::OpenProcess)),
        },
        AttachStage::Search => match reply {
            AttachReply::Window { hwnd, process_id } => {
                let found = taken(state.pid, state.found, hwnd, process_id);
                AttachStep::Next(
                    AttachState { found, ..state },
                    if found is Some {
                        AttachRequest::Stop
                    } else {
                        AttachRequest::Continue
                    },
                )
            },
            AttachReply::Ended { result, last_error } => match walk_verdict(result, last_error) {
                Err(error) => closing(state, AttachError::EnumWindows(error)),
                Ok(_) => found_or_closing(state),
            },
            _ => found_or_closing(state),
        },
        AttachStage::Close => AttachStep::Done(state.outcome->Some_0),
    }
}

/// The walk ended well: the game is attached to if a window was taken, else
/// the handle is closed for want of a window.
pub open spec fn found_or_closing(state: AttachState) -> AttachStep {
    match state.found {
        Some(hwnd) => AttachStep::Done(Ok(Process { pid: state.pid, handle: state.handle, hwnd })),
        None => closing(state, AttachError::WindowNotFound),
    }
}

/// The attaching failed after the process was opened: the handle is closed
/// before the error is handed out.
pub open spec fn closing(state: AttachState, error: AttachError) -> AttachStep {
    AttachStep::Next(
        AttachState { stage: AttachStage::Close, outcome: Some(Err(error)), ..state },
        AttachRequest::CloseHandle { handle: state.handle },
    )
}

impl AttachError {
    /// What went wrong, in a sentence.
    pub fn message(&self) -> (text: &'static str)
        ensures
            text@ == (match *self {
                AttachError::ProcessNotFound => "Cannot find opened Master Duel process."@,
                AttachError::OpenProcess => "Unable to get handle of masterduel.exe"@,
                AttachError::EnumWindows(_) => "Unable to get hwnd of masterduel.exe"@,
                AttachError::WindowNotFound => "Unable to get hwnd of masterduel.exe"@,
            }),
    {
        match self {
            AttachError::ProcessNotFound => "Cannot find opened Master Duel process.",
            AttachError::OpenProcess => "Unable to get handle of masterduel.exe",
            AttachError::EnumWindows(_) => "Unable to get hwnd of masterduel.exe",
            AttachError::WindowNotFound => "Unable to get hwnd of masterduel.exe",
        }
    }
}

/// What opening a process came to: the handle, or the error where the
/// handle names nothing.
pub fn open_process(handle: isize) -> (r: Result<isize, AttachError>)
    ensures
        handle == NULL_HANDLE <==> r is Err,
        r is Err ==> r == Err::<isize, _>(AttachError::OpenProcess),
        r is Ok ==> r == Ok::<_, AttachError>(handle),
{
    if handle == NULL_HANDLE {
        Err(AttachError::OpenProcess)
    } else {
        Ok(handle)
    }
}

/// How a walk over the windows ended. A walk returns zero when it failed
/// and when it was stopped; it failed only if the system's last error is
/// not zero.
pub fn enum_by_until(result: i32, last_error: Option<i32>) -> (r: Result<(), i32>)
    ensures
        r == walk_verdict(result, last_error),
        r is Err <==> result == 0 && last_error is Some && last_error != Some(0i32),
{
    if result == 0 {
        if let Some(errno) = last_error {
            if errno != 0 {
                return Err(errno);
            }
        }
    }
    Ok(())
}

/// Meets one window on the walk in search of the window of the process
/// `pid`: takes it if none was taken before and it belongs to the process,
/// and says whether the walk is to stop, which it is once a window is
/// taken.
pub fn get_by_pid(pid: u32, found: Option<isize>, hwnd: isize, process_id: u32) -> (r: (
    Option<isize>,
    i32,
))
    ensures
        r.0 == taken(pid, found, hwnd, process_id),
        r.1 == if r.0 is Some {
            STOP
        } else {
            CONTINUE
        },
{
    match found {
        Some(_) => (found, STOP),
        None => {
            if process_id == pid {
                (Some(hwnd), STOP)
            } else {
                (None, CONTINUE)
            }
        },
    }
}

/// Begins attaching: the first call finds the process of the game's name.
pub fn attach_process_begin() -> (r: (AttachState, AttachRequest))
    ensures
        r.0 == AttachState::initial(),
        r.1 == (AttachRequest::FindProcess { name: PROCESS_NAME }),
        r.0.well_formed(),
{
    (
        AttachState {
            stage: AttachStage::Find,
            pid: 0,
            handle: NULL_HANDLE,
            found: None,
            outcome: None,
        },
        AttachRequest::FindProcess { name: PROCESS_NAME },
    )
}

/// The step that closes the handle with the error settled.
fn close_with(state: AttachState, error: AttachError) -> (step: AttachStep)
    ensures
        step == closing(state, error),
{
    AttachStep::Next(
        AttachState {
            stage: AttachStage::Close,
            pid: state.pid,
            handle: state.handle,
            found: state.found,
            outcome: Some(Err(error)),
        },
        AttachRequest::CloseHandle { handle: state.handle },
    )
}

/// The step after a walk that ended well.
fn found_or_close(state: AttachState) -> (step: AttachStep)
    ensures
        step == found_or_closing(state),
{
    match state.found {
        Some(hwnd) => AttachStep::Done(Ok(Process { pid: state.pid, handle: state.handle, hwnd })),
        None => close_with(state, AttachError::WindowNotFound),
    }
}

/// Takes the answer to the awaited call and names the next call, or hands
/// out the result.
///
/// The game is attached to when its process was found and opened and a
/// window of the process was met on the walk; the window handed out is the
/// first one met. Whatever fails after the process was opened has the handle
/// closed before the error is handed out.
pub fn attach_process(state: AttachState, reply: AttachReply) -> (step: AttachStep)
    requires
        state.well_formed(),
    ensures
        step == attach_step(state, reply),
        step matches AttachStep::Next(next, _) ==> next.well_formed(),
        step matches AttachStep::Done(Ok(process)) ==> process.handle != NULL_HANDLE,
{
    match state.stage {
        AttachStage::Find => {
            match reply {
                AttachReply::Pid(Some(pid)) => AttachStep::Next(
                    AttachState {
                        stage: AttachStage::Open,
                        pid,
                        handle: state.handle,
                        found: state.found,
                        outcome: state.outcome,
                    },
                    AttachRequest::OpenProcess { access: PROCESS_ACCESS, inherit: false, pid },
                ),
                _ => AttachStep::Done(Err(AttachError::ProcessNotFound)),
            }
        },
        AttachStage::Open => {
            match reply {
                AttachReply::Handle(handle) => {
                    match open_process(handle) {
                        Ok(handle) => AttachStep::Next(
                            AttachState {
                                stage: AttachStage::Search,
                                pid: state.pid,
                                handle,
                                found: state.found,
                                outcome: state.outcome,
                            },
                            AttachRequest::EnumWindows,
                        ),
                        Err(error) => AttachStep::Done(Err(error)),
                    }
                },
                _ => AttachStep::Done(Err(AttachError::OpenProcess)),
            }
        },
        AttachStage::Search => {
            match reply {
                AttachReply::Window { hwnd, process_id } => {
                    let (found, verdict) = get_by_pid(state.pid, state.found, hwnd, process_id);
                    let request = if verdict == STOP {
                        AttachRequest::Stop
                    } else {
                        AttachRequest::Continue
                    };
                    AttachStep::Next(
                        AttachState {
                            stage: AttachStage::Search,
                            pid: state.pid,
                            handle: state.handle,
                            found,
                            outcome: state.outcome,
                        },
                        request,
                    )
                },
                AttachReply::Ended { result, last_error } => {
                    match enum_by_until(result, last_error) {
                        Err(errno) => close_with(state, AttachError::EnumWindows(errno)),
                        Ok(_) => found_or_close(state),
                    }
                },
                _ => found_or_close(state),
            }
        },
        AttachStage::Close => {
            match state.outcome {
                Some(result) => AttachStep::Done(result),
                None => vstd::pervasive::unreached(),
            }
        },
    }
}

/// The window taken is the first that belongs to the process: after all of
/// `windows` were met in turn, with none taken before, the window taken is
/// the first of them whose process is `pid`.
pub proof fn lemma_first_window_is_taken(pid: u32, windows: Seq<(isize, u32)>)
    ensures
        taken_over(pid, None, windows) == first_window_of(pid, windows),
    decreases windows.len(),
{
    if windows.len() > 0 {
        if windows[0].1 == pid {
            lemma_taken_stays(pid, windows[0].0, windows.drop_first());
        } else {
            lemma_first_window_is_taken(pid, windows.drop_first());
        }
    }
}

/// A window that was taken stays taken, whatever windows are met after it.
pub proof fn lemma_taken_stays(pid: u32, hwnd: isize, windows: Seq<(isize, u32)>)
    ensures
        taken_over(pid, Some(hwnd), windows) == Some(hwnd),
    decreases windows.len(),
{
    if windows.len() > 0 {
        lemma_taken_stays(pid, hwnd, windows.drop_first());
    }
}

} // verus!
