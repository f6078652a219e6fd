//! One frame: clear, draw every drawable in the caller's order, present.
//!
//! The compositor decides; the caller performs each command on the GPU
//! backend and reports back. A refused command ends the frame at once with
//! the matching error: nothing is retried and nothing further is issued.

use vstd::prelude::*;
use crate::drawable::{Drawable, DrawableKind, Readiness};
use crate::error::{FrameError, ResourceCreationError};

verus! {

/// The depth test of a draw command.
#[derive(Clone, Copy, Debug, PartialEq, Eq, Structural)]
pub enum DepthMode {
    /// No test and no write: what is drawn later covers what came before.
    Disabled,
    /// A fragment passes if its depth is less than the stored one, and
    /// then stores its own.
    LessWithWrite,
}

/// A command for the GPU backend.
#[derive(Clone, Copy, Debug, PartialEq, Eq, Structural)]
pub enum Command {
    /// Clear the colour to the background, and the depth too if `with_depth`.
    Clear { with_depth: bool },
    /// Draw the drawable at `index` of the scene with this depth test.
    Draw { index: usize, depth: DepthMode },
    /// Present the finished frame.
    Present,
}

/// Whether some drawable of the list needs the depth test.
pub open spec fn spec_needs_depth(kinds: Seq<DrawableKind>) -> bool {
    exists|i: int| 0 <= i < kinds.len() && (#[trigger] kinds[i]).spec_depth_tested()
}

/// The depth test of a frame: on for all its draws if one of them needs
/// it, else off.
pub open spec fn spec_depth_mode(kinds: Seq<DrawableKind>) -> DepthMode {
    if spec_needs_depth(kinds) {
        DepthMode::LessWithWrite
    } else {
        DepthMode::Disabled
    }
}

/// The commands of one frame, in order: a clear, one draw for each
/// drawable in the order of the list, a present.
pub open spec fn spec_plan(kinds: Seq<DrawableKind>) -> Seq<Command> {
    Seq::new(
        kinds.len() + 2,
        |k: int|
            if k == 0 {
                Command::Clear { with_depth: spec_needs_depth(kinds) }
            } else if k <= kinds.len() {
                Command::Draw { index: (k - 1) as usize, depth: spec_depth_mode(kinds) }
            } else {
                Command::Present
            },
    )
}

/// The error that a refusal of `command` stands for. A clear cannot be
/// refused.
pub open spec fn spec_failure(command: Command) -> Option<FrameError> {
    match command {
        Command::Clear { .. } => None,
        Command::Draw { index, .. } => Some(FrameError::Draw { index }),
        Command::Present => Some(FrameError::Presentation),
    }
}

/// The kinds of the drawables of a list, in the order of the list.
pub open spec fn spec_kinds(drawables: Seq<Drawable>) -> Seq<DrawableKind> {
    Seq::new(drawables.len(), |i: int| drawables[i]@.kind)
}

/// The drawables of a frame, all of them ready, in drawing order.
#[derive(Debug)]
pub struct Scene {
    kinds: Vec<DrawableKind>,
}

impl View for Scene {
    type V = Seq<DrawableKind>;

    closed spec fn view(&self) -> Seq<DrawableKind> {
        self.kinds@
    }
}

impl Scene {
    /// Takes the drawables in drawing order. All of them must be ready,
    /// so that no frame is begun with resources missing: otherwise the
    /// error names the first that is not.
    pub fn new(drawables: &Vec<Drawable>) -> (r: Result<Scene, ResourceCreationError>)
        ensures
            match r {
                Ok(scene) => {
                    &&& scene@ == spec_kinds(drawables@)
                    &&& forall|i: int|
                        0 <= i < drawables@.len() ==> #[trigger] drawables@[i]@.readiness()
                            == Readiness::Ready
                },
                Err(e) => exists|index: int|
                    {
                        &&& 0 <= index < drawables@.len()
                        &&& e == ResourceCreationError::NotReady { index: index as usize }
                        &&& #[trigger] drawables@[index]@.readiness() == Readiness::Unrealized
                        &&& forall|j: int|
                            0 <= j < index ==> #[trigger] drawables@[j]@.readiness()
                                == Readiness::Ready
                    },
            },
    {
        let mut kinds: Vec<DrawableKind> = Vec::new();
        let mut i: usize = 0;
        while i < drawables.len()
            invariant
                i <= drawables@.len(),
                kinds@.len() == i,
                forall|j: int| 0 <= j < i ==> #[trigger] kinds@[j] == drawables@[j]@.kind,
                forall|j: int|
                    0 <= j < i ==> #[trigger] drawables@[j]@.readiness() == Readiness::Ready,
            decreases drawables@.len() - i,
        {
            match drawables[i].readiness() {
                Readiness::Ready => {
                    kinds.push(drawables[i].kind());
                },
                Readiness::Unrealized => {
                    return Err(ResourceCreationError::NotReady { index: i });
                },
            }
            i = i + 1;
        }
        assert(kinds@ =~= spec_kinds(drawables@));
        Ok(Scene { kinds })
    }

    /// How many drawables the scene holds.
    pub fn len(&self) -> (n: usize)
        ensures
            n == self@.len(),
    {
        self.kinds.len()
    }

    /// Whether some drawable of the scene needs the depth test.
    pub fn needs_depth(&self) -> (b: bool)
        ensures
            b == spec_needs_depth(self@),
    {
        let mut i: usize = 0;
        while i < self.kinds.len()
            invariant
                i <= self.kinds@.len(),
                forall|j: int| 0 <= j < i ==> !(#[trigger] self.kinds@[j]).spec_depth_tested(),
            decreases self.kinds@.len() - i,
        {
            if self.kinds[i].depth_tested() {
                return true;
            }
            i = i + 1;
        }
        false
    }

    /// The commands of one frame of this scene, in the order in which they
    /// are to be issued.
    pub fn plan(&self) -> (plan: Vec<Command>)
        ensures
            plan@ == spec_plan(self@),
    {
        let depth = self.needs_depth();
        let mode = if depth {
            DepthMode::LessWithWrite
        } else {
            DepthMode::Disabled
        };
        let mut plan: Vec<Command> = Vec::new();
        plan.push(Command::Clear { with_depth: depth });
        let mut i: usize = 0;
        while i < self.kinds.len()
            invariant
                i <= self.kinds@.len(),
                depth == spec_needs_depth(self@),
                mode == spec_depth_mode(self@),
                plan@.len() == i + 1,
                forall|k: int| 0 <= k <= i ==> #[trigger] plan@[k] == spec_plan(self@)[k],
            decreases self.kinds@.len() - i,
        {
            plan.push(Command::Draw { index: i, depth: mode });
            i = i + 1;
        }
        plan.push(Command::Present);
        assert(plan@ =~= spec_plan(self@));
        plan
    }
}

/// How far a frame has come.
pub struct FrameRunView {
    /// The commands of the frame.
    pub plan: Seq<Command>,
    /// How many of them the backend has carried out.
    pub done: nat,
    /// The error that ended the frame early, if one did.
    pub failure: Option<FrameError>,
}

impl FrameRunView {
    /// The command to issue now; `None` once the frame is over.
    pub open spec fn pending(self) -> Option<Command> {
        if self.failure is None && self.done < self.plan.len() {
            Some(self.plan[self.done as int])
        } else {
            None
        }
    }

    /// How the frame ended; `None` while a command is pending.
    pub open spec fn outcome(self) -> Option<Result<(), FrameError>> {
        match self.failure {
            Some(e) => Some(Err(e)),
            None => if self.done < self.plan.len() {
                None
            } else {
                Some(Ok(()))
            },
        }
    }

    /// The frame after the backend's answer to the pending command.
    /// Carried out: on to the next. Refused: the frame is over, with the
    /// error of that command. With nothing pending nothing changes, and
    /// neither does a refused clear change anything.
    pub open spec fn advance(self, accepted: bool) -> FrameRunView {
        match self.pending() {
            None => self,
            Some(command) => if accepted {
                FrameRunView { done: self.done + 1, ..self }
            } else {
                FrameRunView { failure: spec_failure(command), ..self }
            },
        }
    }

    /// The commands issued so far, the pending one not counted.
    pub open spec fn issued(self) -> Seq<Command> {
        self.plan.take(self.done as int)
    }
}

/// One frame in progress.
#[derive(Debug)]
pub struct FrameRun {
    plan: Vec<Command>,
    done: usize,
    failure: Option<FrameError>,
}

impl View for FrameRun {
    type V = FrameRunView;

    closed spec fn view(&self) -> FrameRunView {
        FrameRunView { plan: self.plan@, done: self.done as nat, failure: self.failure }
    }
}

impl FrameRun {
    /// Never more commands done than planned.
    #[verifier::type_invariant]
    closed spec fn well_formed(self) -> bool {
        self.done <= self.plan@.len()
    }

    /// Begins a frame of the scene: nothing issued yet, the clear pending.
    pub fn begin(scene: &Scene) -> (run: FrameRun)
        ensures
            run@ == (FrameRunView { plan: spec_plan(scene@), done: 0, failure: None }),
    {
        FrameRun { plan: scene.plan(), done: 0, failure: None }
    }

    /// The command to issue now; `None` once the frame is over.
    pub fn pending(&self) -> (command: Option<Command>)
        ensures
            command == self@.pending(),
    {
        if self.failure.is_none() && self.done < self.plan.len() {
            Some(self.plan[self.done])
        } else {
            None
        }
    }

    /// Takes note of the backend's answer to the pending command. A clear
    /// has no way to fail: a refusal reported for it is not believed, and
    /// the clear stays pending.
    pub fn advance(&mut self, accepted: bool)
        ensures
            final(self)@ == old(self)@.advance(accepted),
    {
        proof {
            use_type_invariant(&*self);
        }
        if self.failure.is_none() && self.done < self.plan.len() {
            if accepted {
                self.done = self.done + 1;
            } else {
                match self.plan[self.done] {
                    Command::Draw { index, .. } => {
                        self.failure = Some(FrameError::Draw { index });
                    },
                    Command::Present => {
                        self.failure = Some(FrameError::Presentation);
                    },
                    Command::Clear { .. } => {},
                }
            }
        }
    }

    /// How the frame ended; `None` while a command is pending.
    pub fn outcome(&self) -> (r: Option<Result<(), FrameError>>)
        ensures
            r == self@.outcome(),
    {
        match self.failure {
            Some(e) => Some(Err(e)),
            None => if self.done < self.plan.len() {
                None
            } else {
                Some(Ok(()))
            },
        }
    }
}

impl FrameRunView {
    /// The frame after the backend's answers, one for each command issued.
    pub open spec fn advance_all(self, answers: Seq<bool>) -> FrameRunView
        decreases answers.len(),
    {
        if answers.len() == 0 {
            self
        } else {
            self.advance(answers[0]).advance_all(answers.drop_first())
        }
    }
}

/// Every drawable is drawn exactly once and in the caller's order: the
/// draw of the drawable at `i` is command `i + 1`, between the clear at the
/// front and the present at the end, and no other command draws it.
pub proof fn lemma_plan_draws_each_once_in_order(kinds: Seq<DrawableKind>)
    requires
        kinds.len() <= usize::MAX,
    ensures
        spec_plan(kinds).len() == kinds.len() + 2,
        spec_plan(kinds)[0] == (Command::Clear { with_depth: spec_needs_depth(kinds) }),
        spec_plan(kinds)[kinds.len() as int + 1] == Command::Present,
        forall|i: int|
            0 <= i < kinds.len() ==> #[trigger] spec_plan(kinds)[i + 1] == (Command::Draw {
                index: i as usize,
                depth: spec_depth_mode(kinds),
            }),
        forall|k: int, i: int|
            0 <= k < spec_plan(kinds).len() && 0 <= i < kinds.len() && (#[trigger] spec_plan(
                kinds,
            )[k] matches Command::Draw { index, .. } && index == i) ==> k == #[trigger] (i + 1),
{
}

/// The depth test is on for a frame exactly when one of its drawables
/// needs it, and then the depth is cleared too and every draw of the
/// frame is tested.
pub proof fn lemma_depth_only_when_needed(kinds: Seq<DrawableKind>, i: int)
    requires
        0 <= i < kinds.len(),
    ensures
        spec_plan(kinds)[0] == (Command::Clear { with_depth: spec_needs_depth(kinds) }),
        spec_plan(kinds)[i + 1] matches Command::Draw { depth, .. } && (depth
            == DepthMode::LessWithWrite <==> spec_needs_depth(kinds)),
        kinds[i].spec_depth_tested() ==> spec_needs_depth(kinds),
{
}

/// When the backend carries out every command, the frame ends well after
/// the last one, with all of the plan issued in order.
pub proof fn lemma_accepted_frame_completes(kinds: Seq<DrawableKind>)
    ensures
        ({
            let start = FrameRunView { plan: spec_plan(kinds), done: 0, failure: None };
            let end = start.advance_all(Seq::new(spec_plan(kinds).len(), |k: int| true));
            &&& end.outcome() == Some(Ok::<(), FrameError>(()))
            &&& end.issued() == spec_plan(kinds)
        }),
{
    let plan = spec_plan(kinds);
    let start = FrameRunView { plan, done: 0, failure: None };
    lemma_all_accepted(start, plan.len());
    let end = start.advance_all(Seq::new(plan.len(), |k: int| true));
    assert(end.issued() =~= plan);
}

proof fn lemma_all_accepted(run: FrameRunView, count: nat)
    requires
        run.failure is None,
        run.done + count <= run.plan.len(),
    ensures
        run.advance_all(Seq::new(count, |k: int| true)) == (FrameRunView {
            done: run.done + count,
            ..run
        }),
    decreases count,
{
    let answers = Seq::new(count, |k: int| true);
    if count > 0 {
        assert(answers.drop_first() =~= Seq::new((count - 1) as nat, |k: int| true));
        lemma_all_accepted(run.advance(true), (count - 1) as nat);
    }
}

/// The first refusal ends the frame: the error is that of the refused
/// command, no later command is issued, and no further answer changes
/// anything.
pub proof fn lemma_refusal_ends_frame(run: FrameRunView, later: Seq<bool>)
    requires
        run.pending() matches Some(command) && !(command is Clear),
    ensures
        run.advance(false).pending() is None,
        run.advance(false).outcome() == Some(
            Err::<(), FrameError>(spec_failure(run.pending().unwrap()).unwrap()),
        ),
        run.advance(false).issued() == run.issued(),
        run.advance(false).advance_all(later) == run.advance(false),
    decreases later.len(),
{
    if later.len() > 0 {
        lemma_refusal_ends_frame(run, later.drop_first());
    }
}

} // verus!
