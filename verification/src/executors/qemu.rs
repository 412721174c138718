//! An executor for targets that run under an emulator. It wraps another
//! executor and calls the hooks of the emulator around each run.

use vstd::prelude::*;
use crate::error::Error;
use crate::executors::{Executor, ExitKind, HasObservers};

verus! {

/// Hooks that sit on an emulator.
pub trait HasEmulator: Sized {
    /// The emulator's type.
    type Emulator;

    /// The emulator that the hooks sit on.
    open spec fn emulator_of(self) -> Self::Emulator {
        arbitrary()
    }

    /// The emulator that the hooks sit on.
    fn emulator(&self) -> (r: &Self::Emulator)
        ensures
            *r == self.emulator_of(),
    ;
}

/// The hooks of an emulator, as the executor calls them around the runs of
/// inputs of type `I` with observers of type `OT`.
pub trait QemuHooks<I, OT>: HasEmulator {
    /// Whether the hooks have effects that must be seen after a run. Hooks
    /// with such effects cannot be used where the target runs in a child
    /// process.
    open spec fn side_effects(self) -> bool {
        arbitrary()
    }

    /// What the call before the very first run may do to the hooks.
    open spec fn may_first_exec(pre: Self, post: Self) -> bool {
        true
    }

    /// What the call before the run of `input` may do to the hooks.
    open spec fn may_pre_exec(pre: Self, input: I, post: Self) -> bool {
        true
    }

    /// What the call after the run of `input` may do to the hooks, the
    /// observers and the exit kind of the run.
    open spec fn may_post_exec(pre: (Self, OT, ExitKind), input: I, post: (Self, OT, ExitKind)) -> bool {
        true
    }

    /// Whether the hooks have effects that must be seen after a run.
    fn hooks_do_side_effects(&self) -> (r: bool)
        ensures
            r == self.side_effects(),
    ;

    /// Called once, before the first run.
    fn first_exec_all(&mut self)
        ensures
            Self::may_first_exec(*old(self), *final(self)),
    ;

    /// Called before every run.
    fn pre_exec_all(&mut self, input: &I)
        ensures
            Self::may_pre_exec(*old(self), *input, *final(self)),
    ;

    /// Called after every run; the hooks may correct the exit kind.
    fn post_exec_all(&mut self, input: &I, observers: &mut OT, exit_kind: &mut ExitKind)
        ensures
            Self::may_post_exec(
                (*old(self), *old(observers), *old(exit_kind)),
                *input,
                (*final(self), *final(observers), *final(exit_kind)),
            ),
    ;
}

/// The part of an emulator executor that knows the hooks, and whether a run
/// has been prepared before.
pub struct QemuExecutorState<QH> {
    /// The hooks of the emulator.
    pub hooks: QH,
    /// Whether no run has been prepared yet.
    pub first_exec: bool,
}

/// What preparing the run of `input` does: before the very first run the
/// hooks get their first-run call, and no later run is a first run; then
/// the hooks get their call before the run.
pub open spec fn run_prepared<QH: QemuHooks<I, OT>, I, OT>(
    pre: QemuExecutorState<QH>,
    input: I,
    post: QemuExecutorState<QH>,
) -> bool {
    &&& !post.first_exec
    &&& if pre.first_exec {
        exists|first: QH|
            #[trigger] QH::may_first_exec(pre.hooks, first) && QH::may_pre_exec(
                first,
                input,
                post.hooks,
            )
    } else {
        QH::may_pre_exec(pre.hooks, input, post.hooks)
    }
}

impl<QH> QemuExecutorState<QH> {
    /// The state of an executor that has not run yet.
    pub fn new(hooks: QH) -> (r: Result<Self, Error>)
        ensures
            r == Ok::<Self, Error>(QemuExecutorState { hooks, first_exec: true }),
    {
        Ok(QemuExecutorState { first_exec: true, hooks })
    }

    /// The hooks.
    pub fn hooks(&self) -> (r: &QH)
        ensures
            *r == self.hooks,
    {
        &self.hooks
    }

    /// The hooks, for changing them.
    pub fn hooks_mut(&mut self) -> (r: &mut QH)
        ensures
            *r == old(self).hooks,
            *final(self) == (QemuExecutorState { hooks: *final(r), ..*old(self) }),
    {
        &mut self.hooks
    }

    /// The emulator that the hooks sit on.
    pub fn emulator(&self) -> (r: &QH::Emulator) where QH: HasEmulator
        ensures
            *r == self.hooks.emulator_of(),
    {
        self.hooks.emulator()
    }

    /// Prepares the run of `input`: see `run_prepared`.
    pub fn pre_exec<I, OT>(&mut self, input: &I) where QH: QemuHooks<I, OT>
        ensures
            run_prepared::<QH, I, OT>(*old(self), *input, *final(self)),
    {
        if self.first_exec {
            self.hooks.first_exec_all();
            self.first_exec = false;
            let ghost first = self.hooks;
            self.hooks.pre_exec_all(input);
            assert(QH::may_first_exec(old(self).hooks, first));
        } else {
            self.hooks.pre_exec_all(input);
        }
    }

    /// Tells the hooks that the run of `input` is over.
    pub fn post_exec<I, OT>(&mut self, input: &I, observers: &mut OT, exit_kind: &mut ExitKind) where
        QH: QemuHooks<I, OT>,

        ensures
            final(self).first_exec == old(self).first_exec,
            QH::may_post_exec(
                (old(self).hooks, *old(observers), *old(exit_kind)),
                *input,
                (final(self).hooks, *final(observers), *final(exit_kind)),
            ),
    {
        self.hooks.post_exec_all(input, observers, exit_kind);
    }
}

/// What follows the inner run of an emulator executor, which left the inner
/// executor and the rest at `ran` and answered `exit`, with the hooks at
/// `prepared`: an error of the run is handed on and the hooks are not
/// called; else the hooks get their call after the run, with the observers
/// of the inner executor, and the exit kind as they leave it is the answer.
pub open spec fn after_inner_run<X, QH, EM, I, S, Z>(
    prepared: QemuExecutorState<QH>,
    input: I,
    ran: (X, Z, S, EM),
    exit: Result<ExitKind, Error>,
    post: (X, QemuExecutorState<QH>, Z, S, EM),
    r: Result<ExitKind, Error>,
) -> bool where X: Executor<EM, I, S, Z> + HasObservers, QH: QemuHooks<I, X::Observers> {
    &&& post.2 == ran.1
    &&& post.3 == ran.2
    &&& post.4 == ran.3
    &&& match exit {
        Err(e) => r == Err::<ExitKind, Error>(e) && post.0 == ran.0 && post.1 == prepared,
        Ok(exit_kind) => exists|told: (QH, X::Observers, ExitKind)|
            {
                &&& #[trigger] QH::may_post_exec(
                    (prepared.hooks, ran.0.observers_of(), exit_kind),
                    input,
                    told,
                )
                &&& r == Ok::<ExitKind, Error>(told.2)
                &&& post.0 == ran.0.with_observers(told.1)
                &&& post.1 == (QemuExecutorState { hooks: told.0, first_exec: prepared.first_exec })
            },
    }
}

/// One run of an emulator executor made of the inner executor `pre.0` and
/// the state `pre.1`: the run is prepared as `run_prepared` tells, the inner
/// executor runs the target, and what follows is told by `after_inner_run`.
pub open spec fn emulated_run<X, QH, EM, I, S, Z>(
    pre: (X, QemuExecutorState<QH>, Z, S, EM),
    input: I,
    post: (X, QemuExecutorState<QH>, Z, S, EM),
    r: Result<ExitKind, Error>,
) -> bool where X: Executor<EM, I, S, Z> + HasObservers, QH: QemuHooks<I, X::Observers> {
    exists|prepared: QemuExecutorState<QH>, ran: (X, Z, S, EM), exit: Result<ExitKind, Error>|
        {
            &&& run_prepared::<QH, I, X::Observers>(pre.1, input, prepared)
            &&& X::may_run((pre.0, pre.2, pre.3, pre.4), input, ran, exit)
            &&& #[trigger] after_inner_run::<X, QH, EM, I, S, Z>(prepared, input, ran, exit, post, r)
        }
}

/// Runs the target once with the hooks around the inner run: see
/// `emulated_run`.
pub fn run_emulated<X, QH, EM, I, S, Z>(
    inner: &mut X,
    state_of_hooks: &mut QemuExecutorState<QH>,
    fuzzer: &mut Z,
    state: &mut S,
    mgr: &mut EM,
    input: &I,
) -> (r: Result<ExitKind, Error>) where
    X: Executor<EM, I, S, Z> + HasObservers,
    QH: QemuHooks<I, X::Observers>,

    ensures
        emulated_run::<X, QH, EM, I, S, Z>(
            (*old(inner), *old(state_of_hooks), *old(fuzzer), *old(state), *old(mgr)),
            *input,
            (*final(inner), *final(state_of_hooks), *final(fuzzer), *final(state), *final(mgr)),
            r,
        ),
{
    let ghost pre = (*inner, *state_of_hooks, *fuzzer, *state, *mgr);
    state_of_hooks.pre_exec::<I, X::Observers>(input);
    let ghost prepared = *state_of_hooks;
    let exit = inner.run_target(fuzzer, state, mgr, input);
    let ghost ran = (*inner, *fuzzer, *state, *mgr);
    assert(X::may_run((pre.0, pre.2, pre.3, pre.4), *input, ran, exit));
    let mut exit_kind = match exit {
        Ok(exit_kind) => exit_kind,
        Err(e) => {
            assert(after_inner_run::<X, QH, EM, I, S, Z>(
                prepared,
                *input,
                ran,
                exit,
                (*inner, *state_of_hooks, *fuzzer, *state, *mgr),
                Err(e),
            ));
            return Err(e);
        },
    };
    let ghost before = exit_kind;
    let observers = inner.observers_mut();
    state_of_hooks.post_exec(input, observers, &mut exit_kind);
    proof {
        let told = (state_of_hooks.hooks, *observers, exit_kind);
        assert(QH::may_post_exec((prepared.hooks, ran.0.observers_of(), before), *input, told));
        assert(after_inner_run::<X, QH, EM, I, S, Z>(
            prepared,
            *input,
            ran,
            exit,
            (*inner, *state_of_hooks, *fuzzer, *state, *mgr),
            Ok(exit_kind),
        ));
    }
    Ok(exit_kind)
}

/// An executor that runs the target in this process, under the emulator.
pub struct QemuExecutor<X, QH> {
    /// The executor that runs the target.
    pub inner: X,
    /// The hooks of the emulator, and whether a run was prepared before.
    pub state: QemuExecutorState<QH>,
}

impl<X, QH> QemuExecutor<X, QH> {
    /// An executor made of `inner` and `hooks` that has not run yet.
    pub fn new(hooks: QH, inner: X) -> (r: Result<Self, Error>)
        ensures
            r == Ok::<Self, Error>(
                QemuExecutor { inner, state: QemuExecutorState { hooks, first_exec: true } },
            ),
    {
        match QemuExecutorState::new(hooks) {
            Ok(state) => Ok(QemuExecutor { inner, state }),
            Err(e) => Err(e),
        }
    }

    /// The executor that runs the target.
    pub fn inner(&self) -> (r: &X)
        ensures
            *r == self.inner,
    {
        &self.inner
    }

    /// The executor that runs the target, for changing it.
    pub fn inner_mut(&mut self) -> (r: &mut X)
        ensures
            *r == old(self).inner,
            *final(self) == (QemuExecutor { inner: *final(r), ..*old(self) }),
    {
        &mut self.inner
    }

    /// The hooks of the emulator.
    pub fn hooks(&self) -> (r: &QH)
        ensures
            *r == self.state.hooks,
    {
        self.state.hooks()
    }

    /// The hooks of the emulator, for changing them.
    pub fn hooks_mut(&mut self) -> (r: &mut QH)
        ensures
            *r == old(self).state.hooks,
            *final(self) == (QemuExecutor {
                state: QemuExecutorState { hooks: *final(r), ..old(self).state },
                ..*old(self)
            }),
    {
        self.state.hooks_mut()
    }

    /// The emulator that the hooks sit on.
    pub fn emulator(&self) -> (r: &QH::Emulator) where QH: HasEmulator
        ensures
            *r == self.state.hooks.emulator_of(),
    {
        self.state.emulator()
    }
}

impl<X, QH, EM, I, S, Z> Executor<EM, I, S, Z> for QemuExecutor<X, QH> where
    X: Executor<EM, I, S, Z> + HasObservers,
    QH: QemuHooks<I, X::Observers>,
 {
    open spec fn may_run(pre: (Self, Z, S, EM), input: I, post: (Self, Z, S, EM), r: Result<
        ExitKind,
        Error,
    >) -> bool {
        emulated_run::<X, QH, EM, I, S, Z>(
            (pre.0.inner, pre.0.state, pre.1, pre.2, pre.3),
            input,
            (post.0.inner, post.0.state, post.1, post.2, post.3),
            r,
        )
    }

    fn run_target(&mut self, fuzzer: &mut Z, state: &mut S, mgr: &mut EM, input: &I) -> (r: Result<
        ExitKind,
        Error,
    >) {
        run_emulated(&mut self.inner, &mut self.state, fuzzer, state, mgr, input)
    }
}

impl<X: HasObservers, QH> HasObservers for QemuExecutor<X, QH> {
    type Observers = X::Observers;

    open spec fn observers_of(self) -> X::Observers {
        self.inner.observers_of()
    }

    open spec fn with_observers(self, observers: X::Observers) -> Self {
        QemuExecutor { inner: self.inner.with_observers(observers), state: self.state }
    }

    fn observers(&self) -> (r: &X::Observers) {
        self.inner.observers()
    }

    fn observers_mut(&mut self) -> (r: &mut X::Observers) {
        self.inner.observers_mut()
    }
}

/// An executor that runs the target in a child process, under the emulator.
/// What its hooks do in the child is lost with the child, so it takes only
/// hooks without side effects.
pub struct QemuForkExecutor<X, QH> {
    /// The executor that runs the target in a child process.
    pub inner: X,
    /// The hooks of the emulator, and whether a run was prepared before.
    pub state: QemuExecutorState<QH>,
}

impl<X, QH> QemuForkExecutor<X, QH> {
    /// An executor made of `inner` and `hooks` that has not run yet. The
    /// hooks must be free of side effects.
    pub fn new<I, OT>(hooks: QH, inner: X) -> (r: Result<Self, Error>) where QH: QemuHooks<I, OT>
        requires
            !hooks.side_effects(),
        ensures
            r == Ok::<Self, Error>(
                QemuForkExecutor { inner, state: QemuExecutorState { hooks, first_exec: true } },
            ),
    {
        Ok(QemuForkExecutor { inner, state: QemuExecutorState { first_exec: true, hooks } })
    }

    /// Like `new`, for hooks of which the caller does not know whether they
    /// have side effects: with such hooks no executor is made, and the
    /// answer is `IllegalState`.
    pub fn try_new<I, OT>(hooks: QH, inner: X) -> (r: Result<Self, Error>) where QH: QemuHooks<I, OT>
        ensures
            r == if hooks.side_effects() {
                Err::<Self, Error>(Error::IllegalState)
            } else {
                Ok::<Self, Error>(
                    QemuForkExecutor { inner, state: QemuExecutorState { hooks, first_exec: true } },
                )
            },
    {
        if hooks.hooks_do_side_effects() {
            Err(Error::illegal_state())
        } else {
            Self::new::<I, OT>(hooks, inner)
        }
    }

    /// The executor that runs the target.
    pub fn inner(&self) -> (r: &X)
        ensures
            *r == self.inner,
    {
        &self.inner
    }

    /// The executor that runs the target, for changing it.
    pub fn inner_mut(&mut self) -> (r: &mut X)
        ensures
            *r == old(self).inner,
            *final(self) == (QemuForkExecutor { inner: *final(r), ..*old(self) }),
    {
        &mut self.inner
    }

    /// The hooks of the emulator.
    pub fn hooks(&self) -> (r: &QH)
        ensures
            *r == self.state.hooks,
    {
        &self.state.hooks
    }

    /// The hooks of the emulator, for changing them.
    pub fn hooks_mut(&mut self) -> (r: &mut QH)
        ensures
            *r == old(self).state.hooks,
            *final(self) == (QemuForkExecutor {
                state: QemuExecutorState { hooks: *final(r), ..old(self).state },
                ..*old(self)
            }),
    {
        &mut self.state.hooks
    }

    /// The emulator that the hooks sit on.
    pub fn emulator(&self) -> (r: &QH::Emulator) where QH: HasEmulator
        ensures
            *r == self.state.hooks.emulator_of(),
    {
        self.state.hooks.emulator()
    }
}

impl<X, QH, EM, I, S, Z> Executor<EM, I, S, Z> for QemuForkExecutor<X, QH> where
    X: Executor<EM, I, S, Z> + HasObservers,
    QH: QemuHooks<I, X::Observers>,
 {
    open spec fn may_run(pre: (Self, Z, S, EM), input: I, post: (Self, Z, S, EM), r: Result<
        ExitKind,
        Error,
    >) -> bool {
        emulated_run::<X, QH, EM, I, S, Z>(
            (pre.0.inner, pre.0.state, pre.1, pre.2, pre.3),
            input,
            (post.0.inner, post.0.state, post.1, post.2, post.3),
            r,
        )
    }

    fn run_target(&mut self, fuzzer: &mut Z, state: &mut S, mgr: &mut EM, input: &I) -> (r: Result<
        ExitKind,
        Error,
    >) {
        run_emulated(&mut self.inner, &mut self.state, fuzzer, state, mgr, input)
    }
}

impl<X: HasObservers, QH> HasObservers for QemuForkExecutor<X, QH> {
    type Observers = X::Observers;

    open spec fn observers_of(self) -> X::Observers {
        self.inner.observers_of()
    }

    open spec fn with_observers(self, observers: X::Observers) -> Self {
        QemuForkExecutor { inner: self.inner.with_observers(observers), state: self.state }
    }

    fn observers(&self) -> (r: &X::Observers) {
        self.inner.observers()
    }

    fn observers_mut(&mut self) -> (r: &mut X::Observers) {
        self.inner.observers_mut()
    }
}

} // verus!
