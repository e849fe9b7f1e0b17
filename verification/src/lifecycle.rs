//! Creation and destruction of the record behind a native object.
//!
//! A native window, status item or menu bar delivers its input through a
//! callback that the platform may re-enter: destroying a window from inside
//! its own callback makes the platform call back again before the outer call
//! has returned. The record that the callback works on must therefore outlive
//! every frame that still refers to it. [`Lifecycle`] keeps the two values that
//! decide this, a recursion depth and a removal flag, and says at the exit of
//! which frame the record is to be freed.

use vstd::prelude::*;

verus! {

/// Where a native object stands between its creation and its destruction.
#[derive(Copy, Clone, Debug, PartialEq, Eq, Hash, Structural)]
pub enum LifecycleState {
    /// Nothing has been asked of the platform yet.
    Uninitialized,
    /// The native creation call is running.
    Creating,
    /// The native object exists and its callbacks are dispatched.
    Live,
    /// Destruction was requested while a callback was still on the stack.
    PendingDestroy,
    /// The record has been freed; the handle is never dispatched to again.
    Destroyed,
}

/// Why a native object could not be created.
#[derive(Copy, Clone, Debug, PartialEq, Eq, Hash, Structural)]
pub enum CreationError {
    /// The call was made off the thread that owns the user interface.
    WrongThread,
    /// The platform refused to create the object; the value is its error code.
    CreationFailed(i32),
    /// A failure was captured inside a construction hook. The caller re-raises
    /// it now that the native call has returned.
    PanicDuringConstruction,
    /// The object needs a parent window and none was given.
    MissingParentWindow,
    /// The parent window is not one of this platform.
    InvalidParentWindow,
}

/// How a failed creation ends.
#[derive(Copy, Clone, Debug, PartialEq, Eq, Hash, Structural)]
pub struct CreationFailure {
    /// What went wrong.
    pub error: CreationError,
    /// Whether the caller has to free the record that the first construction
    /// hook had installed.
    pub release_record: bool,
}

/// What a request for destruction led to.
#[derive(Copy, Clone, Debug, PartialEq, Eq, Hash, Structural)]
pub enum DestroyStep {
    /// The object was not alive, or its destruction is under way already:
    /// nothing is to be done, and no close event is to be sent.
    Ignored,
    /// The request was taken while a callback is on the stack. The record is
    /// freed when the outermost callback returns.
    Deferred,
    /// The request was taken with no callback on the stack. The record is to
    /// be freed now.
    FreeNow,
}

/// The mathematical state of a [`Lifecycle`].
pub struct LifecycleModel {
    pub state: LifecycleState,
    /// The record has been allocated and not yet freed.
    pub installed: bool,
    /// How many callbacks that work on the record are on the stack.
    pub depth: nat,
    /// A request for destruction has been observed.
    pub removed: bool,
    /// A failure inside a hook was captured and has not been re-raised.
    pub panicked: bool,
}

impl LifecycleModel {
    /// The states that can be reached.
    ///
    /// The last two lines say that no record leaks and that none is freed
    /// under a running callback: once removal is requested the record exists
    /// exactly as long as a callback is on the stack.
    pub open spec fn wf(self) -> bool {
        &&& match self.state {
            LifecycleState::Uninitialized => !self.installed && !self.removed && !self.panicked,
            LifecycleState::Creating => !self.removed,
            LifecycleState::Live => self.installed && !self.removed,
            LifecycleState::PendingDestroy => self.installed && self.removed,
            LifecycleState::Destroyed => !self.installed,
        }
        &&& (self.depth > 0 ==> self.installed)
        &&& (self.removed && self.installed ==> self.depth > 0)
    }

    pub open spec fn initial() -> Self {
        LifecycleModel {
            state: LifecycleState::Uninitialized,
            installed: false,
            depth: 0,
            removed: false,
            panicked: false,
        }
    }

    /// Whether the native object still routes its callbacks to the record.
    pub open spec fn dispatchable(self) -> bool {
        self.installed && !self.removed
    }

    /// A callback is entered.
    pub open spec fn enter(self) -> Self {
        if self.dispatchable() {
            LifecycleModel { depth: self.depth + 1, ..self }
        } else {
            self
        }
    }

    /// Whether leaving a callback now frees the record.
    pub open spec fn exit_frees(self) -> bool {
        self.installed && self.removed && self.depth == 1
    }

    /// A callback is left.
    pub open spec fn exit(self) -> Self {
        if self.exit_frees() {
            LifecycleModel {
                state: LifecycleState::Destroyed,
                installed: false,
                depth: 0,
                ..self
            }
        } else if self.depth > 0 {
            LifecycleModel { depth: (self.depth - 1) as nat, ..self }
        } else {
            self
        }
    }

    /// What a request for destruction leads to.
    pub open spec fn destroy_step(self) -> DestroyStep {
        if !self.dispatchable() {
            DestroyStep::Ignored
        } else if self.depth == 0 {
            DestroyStep::FreeNow
        } else {
            DestroyStep::Deferred
        }
    }

    /// Destruction is requested.
    pub open spec fn request_destroy(self) -> Self {
        match self.destroy_step() {
            DestroyStep::Ignored => self,
            DestroyStep::Deferred => LifecycleModel {
                state: LifecycleState::PendingDestroy,
                removed: true,
                ..self
            },
            DestroyStep::FreeNow => LifecycleModel {
                state: LifecycleState::Destroyed,
                installed: false,
                removed: true,
                ..self
            },
        }
    }

    /// The state after the native creation call has returned, and what the
    /// caller is told.
    pub open spec fn finish_create(self, handle_valid: bool, os_error: i32) -> (
        Self,
        Result<(), CreationFailure>,
    ) {
        let failed = LifecycleModel {
            state: LifecycleState::Destroyed,
            installed: false,
            depth: 0,
            panicked: false,
            ..self
        };
        if self.panicked {
            (
                failed,
                Err(
                    CreationFailure {
                        error: CreationError::PanicDuringConstruction,
                        release_record: self.installed,
                    },
                ),
            )
        } else if !handle_valid || !self.installed || self.state != LifecycleState::Creating {
            (
                failed,
                Err(
                    CreationFailure {
                        error: CreationError::CreationFailed(os_error),
                        release_record: self.installed,
                    },
                ),
            )
        } else {
            (LifecycleModel { state: LifecycleState::Live, ..self }, Ok(()))
        }
    }
}

/// One thing that can happen to the record of a native object once it exists.
#[derive(Copy, Clone, Debug, PartialEq, Eq, Hash, Structural)]
pub enum LifecycleOp {
    /// A callback is entered.
    Enter,
    /// A callback is left.
    Exit,
    /// Destruction is requested.
    RequestDestroy,
}

impl LifecycleModel {
    /// The state after `op`.
    pub open spec fn apply(self, op: LifecycleOp) -> Self {
        match op {
            LifecycleOp::Enter => self.enter(),
            LifecycleOp::Exit => self.exit(),
            LifecycleOp::RequestDestroy => self.request_destroy(),
        }
    }

    /// Whether `op` tells the caller to free the record.
    pub open spec fn frees(self, op: LifecycleOp) -> bool {
        match op {
            LifecycleOp::Enter => false,
            LifecycleOp::Exit => self.exit_frees(),
            LifecycleOp::RequestDestroy => self.destroy_step() == DestroyStep::FreeNow,
        }
    }

    /// Whether `op` tells the caller to send the close event and to destroy
    /// the native object.
    pub open spec fn closes(self, op: LifecycleOp) -> bool {
        op == LifecycleOp::RequestDestroy && self.destroy_step() != DestroyStep::Ignored
    }

    /// The state after all of `ops`, in order.
    pub open spec fn run(self, ops: Seq<LifecycleOp>) -> Self
        decreases ops.len(),
    {
        if ops.len() == 0 {
            self
        } else {
            self.apply(ops[0]).run(ops.drop_first())
        }
    }

    /// How often the caller is told to free the record while `ops` run.
    pub open spec fn count_frees(self, ops: Seq<LifecycleOp>) -> nat
        decreases ops.len(),
    {
        if ops.len() == 0 {
            0
        } else {
            (if self.frees(ops[0]) {
                1nat
            } else {
                0nat
            }) + self.apply(ops[0]).count_frees(ops.drop_first())
        }
    }

    /// How often the caller is told to send the close event while `ops` run.
    pub open spec fn count_closes(self, ops: Seq<LifecycleOp>) -> nat
        decreases ops.len(),
    {
        if ops.len() == 0 {
            0
        } else {
            (if self.closes(ops[0]) {
                1nat
            } else {
                0nat
            }) + self.apply(ops[0]).count_closes(ops.drop_first())
        }
    }

    /// Entering a callback, leaving one and requesting destruction lead from
    /// reachable states to reachable states.
    pub proof fn lemma_apply_wf(self, op: LifecycleOp)
        requires
            self.wf(),
        ensures
            self.apply(op).wf(),
    {
    }

    /// Whatever happens to a record, in whatever order, it stays in a
    /// reachable state.
    pub proof fn lemma_run_wf(self, ops: Seq<LifecycleOp>)
        requires
            self.wf(),
        ensures
            self.run(ops).wf(),
        decreases ops.len(),
    {
        if ops.len() > 0 {
            self.lemma_apply_wf(ops[0]);
            self.apply(ops[0]).lemma_run_wf(ops.drop_first());
        }
    }

    /// The record is never freed under a running callback. The step that
    /// frees it is taken after destruction was requested, leaves no callback
    /// on the stack, and ends in `Destroyed`; any other step leaves the record
    /// as it was, installed or not.
    pub proof fn lemma_free_only_at_depth_zero(self, op: LifecycleOp)
        requires
            self.wf(),
        ensures
            self.frees(op) ==> self.installed && self.apply(op).removed && self.apply(op).depth
                == 0 && self.apply(op).state == LifecycleState::Destroyed,
            self.frees(op) <==> self.installed && !self.apply(op).installed,
            !self.installed ==> !self.apply(op).installed,
    {
    }

    /// Destruction that is requested while a callback is on the stack is
    /// deferred: the record stays, and the object is `PendingDestroy`.
    pub proof fn lemma_destroy_under_callback_is_deferred(self)
        requires
            self.wf(),
            self.dispatchable(),
            self.depth > 0,
        ensures
            self.destroy_step() == DestroyStep::Deferred,
            self.request_destroy().installed,
            self.request_destroy().state == LifecycleState::PendingDestroy,
            self.request_destroy().depth == self.depth,
    {
    }

    /// No leak: once destruction is requested, the record is gone as soon as
    /// no callback is on the stack.
    pub proof fn lemma_no_leak(self, ops: Seq<LifecycleOp>)
        requires
            self.wf(),
            self.run(ops).removed,
            self.run(ops).depth == 0,
        ensures
            !self.run(ops).installed,
            self.run(ops).state == LifecycleState::Destroyed,
    {
        self.lemma_run_wf(ops);
    }

    /// No double free: over any run the caller is told to free the record
    /// once if the record existed before and is gone after, and never
    /// otherwise.
    pub proof fn lemma_freed_exactly_once(self, ops: Seq<LifecycleOp>)
        requires
            self.wf(),
        ensures
            self.count_frees(ops) == (if self.installed && !self.run(ops).installed {
                1nat
            } else {
                0nat
            }),
            !self.installed ==> !self.run(ops).installed,
        decreases ops.len(),
    {
        if ops.len() > 0 {
            self.lemma_apply_wf(ops[0]);
            self.lemma_free_only_at_depth_zero(ops[0]);
            self.apply(ops[0]).lemma_freed_exactly_once(ops.drop_first());
        }
    }

    /// Requests for destruction are idempotent: over any run the caller is
    /// told to send the close event once if a request was taken during the
    /// run, and never otherwise. A request is taken only while the object is
    /// dispatchable, and it ends that.
    pub proof fn lemma_closed_exactly_once(self, ops: Seq<LifecycleOp>)
        requires
            self.wf(),
        ensures
            self.count_closes(ops) == (if self.dispatchable() && self.run(ops).removed {
                1nat
            } else {
                0nat
            }),
            !self.dispatchable() ==> !self.run(ops).dispatchable(),
            self.removed ==> self.run(ops).removed,
        decreases ops.len(),
    {
        if ops.len() > 0 {
            self.lemma_apply_wf(ops[0]);
            self.apply(ops[0]).lemma_closed_exactly_once(ops.drop_first());
        }
    }

    /// A second request for destruction changes nothing and is reported as
    /// `Ignored`.
    pub proof fn lemma_second_request_ignored(self)
        requires
            self.wf(),
        ensures
            self.request_destroy().destroy_step() == DestroyStep::Ignored,
            self.request_destroy().request_destroy() == self.request_destroy(),
    {
    }

    /// Once the record is freed nothing brings it back: no callback is
    /// dispatched to it, no close event is sent and nothing is freed again.
    pub proof fn lemma_destroyed_is_final(self, ops: Seq<LifecycleOp>)
        requires
            self.wf(),
            self.state == LifecycleState::Destroyed,
        ensures
            self.run(ops) == self,
            self.count_frees(ops) == 0,
            self.count_closes(ops) == 0,
        decreases ops.len(),
    {
        if ops.len() > 0 {
            self.lemma_destroyed_is_final(ops.drop_first());
        }
    }
}

/// The lifecycle record of one native object.
#[derive(Debug)]
pub struct Lifecycle {
    state: LifecycleState,
    installed: bool,
    recurse_depth: u32,
    userdata_removed: bool,
    panic_captured: bool,
}

impl View for Lifecycle {
    type V = LifecycleModel;

    closed spec fn view(&self) -> LifecycleModel {
        LifecycleModel {
            state: self.state,
            installed: self.installed,
            depth: self.recurse_depth as nat,
            removed: self.userdata_removed,
            panicked: self.panic_captured,
        }
    }
}

impl Lifecycle {
    #[verifier::type_invariant]
    spec fn inv(&self) -> bool {
        self@.wf()
    }

    /// The record of an object that has not been created yet.
    pub fn new() -> (this: Self)
        ensures
            this@ == LifecycleModel::initial(),
    {
        Lifecycle {
            state: LifecycleState::Uninitialized,
            installed: false,
            recurse_depth: 0,
            userdata_removed: false,
            panic_captured: false,
        }
    }

    /// The state of the object. Every record is in a reachable state.
    pub fn state(&self) -> (s: LifecycleState)
        ensures
            s == self@.state,
            self@.wf(),
    {
        proof {
            use_type_invariant(self);
        }
        self.state
    }

    /// How many callbacks are on the stack.
    pub fn recurse_depth(&self) -> (d: u32)
        ensures
            d == self@.depth,
    {
        self.recurse_depth
    }

    /// Whether destruction has been requested.
    pub fn userdata_removed(&self) -> (r: bool)
        ensures
            r == self@.removed,
    {
        self.userdata_removed
    }

    /// Whether the record exists: it was installed and has not been freed.
    pub fn is_installed(&self) -> (r: bool)
        ensures
            r == self@.installed,
    {
        self.installed
    }

    /// Whether a captured failure waits to be re-raised.
    pub fn panic_captured(&self) -> (r: bool)
        ensures
            r == self@.panicked,
    {
        self.panic_captured
    }

    /// Whether the native object still routes its callbacks to the record.
    pub fn is_dispatchable(&self) -> (r: bool)
        ensures
            r == self@.dispatchable(),
    {
        self.installed && !self.userdata_removed
    }

    /// The application asks for the object. Creation runs on the thread that
    /// owns the user interface and is refused elsewhere, with nothing changed.
    pub fn begin_create(&mut self, on_ui_thread: bool) -> (r: Result<(), CreationError>)
        requires
            old(self)@.state == LifecycleState::Uninitialized,
        ensures
            on_ui_thread ==> r == Ok::<(), CreationError>(()),
            on_ui_thread ==> final(self)@ == (LifecycleModel {
                state: LifecycleState::Creating,
                ..old(self)@
            }),
            !on_ui_thread ==> r == Err::<(), CreationError>(CreationError::WrongThread),
            !on_ui_thread ==> final(self)@ == old(self)@,
    {
        proof {
            use_type_invariant(&*self);
        }
        if on_ui_thread {
            *self = Lifecycle {
                state: LifecycleState::Creating,
                installed: self.installed,
                recurse_depth: self.recurse_depth,
                userdata_removed: self.userdata_removed,
                panic_captured: self.panic_captured,
            };
            Ok(())
        } else {
            Err(CreationError::WrongThread)
        }
    }

    /// The outcome of the first construction hook, which runs before the
    /// platform has handed out the handle. On success the record is installed
    /// and the native call goes on. On failure the failure is kept and the
    /// native call is told to abort: the result is `false`.
    pub fn install_record(&mut self, hook_succeeded: bool) -> (proceed: bool)
        requires
            old(self)@.state == LifecycleState::Creating,
            !old(self)@.installed,
        ensures
            proceed == hook_succeeded,
            hook_succeeded ==> final(self)@ == (LifecycleModel { installed: true, ..old(self)@ }),
            !hook_succeeded ==> final(self)@ == (LifecycleModel { panicked: true, ..old(self)@ }),
    {
        proof {
            use_type_invariant(&*self);
        }
        *self = Lifecycle {
            state: self.state,
            installed: hook_succeeded,
            recurse_depth: self.recurse_depth,
            userdata_removed: self.userdata_removed,
            panic_captured: self.panic_captured || !hook_succeeded,
        };
        hook_succeeded
    }

    /// A failure was caught inside a callback. It is kept, so that it can be
    /// re-raised on a stack that no native frame is part of.
    pub fn capture_panic(&mut self)
        requires
            old(self)@.state != LifecycleState::Uninitialized,
        ensures
            final(self)@ == (LifecycleModel { panicked: true, ..old(self)@ }),
    {
        proof {
            use_type_invariant(&*self);
        }
        *self = Lifecycle {
            state: self.state,
            installed: self.installed,
            recurse_depth: self.recurse_depth,
            userdata_removed: self.userdata_removed,
            panic_captured: true,
        };
    }

    /// The native creation call has returned. A captured failure comes first;
    /// then a missing handle, with the platform's error code; otherwise the
    /// object is live. After a failure nothing of the object is left: the
    /// state is `Destroyed`, and the result says whether a record is to be
    /// freed.
    pub fn finish_create(&mut self, handle_valid: bool, os_error: i32) -> (r: Result<
        (),
        CreationFailure,
    >)
        requires
            old(self)@.state == LifecycleState::Creating || old(self)@.state
                == LifecycleState::Destroyed,
            old(self)@.depth == 0,
        ensures
            final(self)@ == old(self)@.finish_create(handle_valid, os_error).0,
            r == old(self)@.finish_create(handle_valid, os_error).1,
    {
        proof {
            use_type_invariant(&*self);
        }
        let release_record = self.installed;
        if self.panic_captured {
            *self = Lifecycle {
                state: LifecycleState::Destroyed,
                installed: false,
                recurse_depth: 0,
                userdata_removed: self.userdata_removed,
                panic_captured: false,
            };
            Err(CreationFailure { error: CreationError::PanicDuringConstruction, release_record })
        } else if !handle_valid || !self.installed || self.state != LifecycleState::Creating {
            *self = Lifecycle {
                state: LifecycleState::Destroyed,
                installed: false,
                recurse_depth: 0,
                userdata_removed: self.userdata_removed,
                panic_captured: false,
            };
            Err(CreationFailure { error: CreationError::CreationFailed(os_error), release_record })
        } else {
            *self = Lifecycle {
                state: LifecycleState::Live,
                installed: self.installed,
                recurse_depth: self.recurse_depth,
                userdata_removed: self.userdata_removed,
                panic_captured: self.panic_captured,
            };
            Ok(())
        }
    }

    /// A callback of the native object is entered. The result says whether
    /// the callback works on the record; if not, the message goes to the
    /// platform's default handling and the record is not touched.
    pub fn enter(&mut self) -> (dispatched: bool)
        requires
            old(self)@.depth < u32::MAX,
        ensures
            dispatched == old(self)@.dispatchable(),
            final(self)@ == old(self)@.enter(),
    {
        proof {
            use_type_invariant(&*self);
        }
        if self.installed && !self.userdata_removed {
            *self = Lifecycle {
                state: self.state,
                installed: self.installed,
                recurse_depth: self.recurse_depth + 1,
                userdata_removed: self.userdata_removed,
                panic_captured: self.panic_captured,
            };
            true
        } else {
            false
        }
    }

    /// A callback that had been entered is left. The result says whether the
    /// caller has to free the record now: it does when destruction was
    /// requested and this was the outermost callback.
    pub fn exit(&mut self) -> (free: bool)
        ensures
            free == old(self)@.exit_frees(),
            final(self)@ == old(self)@.exit(),
    {
        proof {
            use_type_invariant(&*self);
        }
        if self.recurse_depth == 0 {
            false
        } else if self.userdata_removed && self.recurse_depth == 1 {
            *self = Lifecycle {
                state: LifecycleState::Destroyed,
                installed: false,
                recurse_depth: 0,
                userdata_removed: self.userdata_removed,
                panic_captured: self.panic_captured,
            };
            true
        } else {
            *self = Lifecycle {
                state: self.state,
                installed: self.installed,
                recurse_depth: self.recurse_depth - 1,
                userdata_removed: self.userdata_removed,
                panic_captured: self.panic_captured,
            };
            false
        }
    }

    /// Destruction is requested, by the application or by the platform. Only
    /// the first request on a live object is taken; the caller sends the close
    /// event and destroys the native object when the result is not `Ignored`.
    pub fn request_destroy(&mut self) -> (step: DestroyStep)
        ensures
            step == old(self)@.destroy_step(),
            final(self)@ == old(self)@.request_destroy(),
    {
        proof {
            use_type_invariant(&*self);
        }
        if !(self.installed && !self.userdata_removed) {
            DestroyStep::Ignored
        } else if self.recurse_depth == 0 {
            *self = Lifecycle {
                state: LifecycleState::Destroyed,
                installed: false,
                recurse_depth: self.recurse_depth,
                userdata_removed: true,
                panic_captured: self.panic_captured,
            };
            DestroyStep::FreeNow
        } else {
            *self = Lifecycle {
                state: LifecycleState::PendingDestroy,
                installed: self.installed,
                recurse_depth: self.recurse_depth,
                userdata_removed: true,
                panic_captured: self.panic_captured,
            };
            DestroyStep::Deferred
        }
    }
}

} // verus!
