use vstd::prelude::*;
use vstd::string::StringExecFns;

verus! {

/// One fallible step of start-up, in the order the steps run.
#[derive(Debug, Clone, Copy, PartialEq, Eq, Structural)]
pub enum Stage {
    Timezone,
    Postgres,
    Redis,
    PreRun,
    Logging,
    Router,
    Serve,
}

impl Stage {
    pub open spec fn spec_context(self) -> Seq<char> {
        match self {
            Stage::Timezone => "timezone initialization failed"@,
            Stage::Postgres => "postgres initialization failed"@,
            Stage::Redis => "redis initialization failed"@,
            Stage::PreRun => "pre-run task failed"@,
            Stage::Logging => "logging initialization failed"@,
            Stage::Router => "router construction failed"@,
            Stage::Serve => "service startup failed"@,
        }
    }

    /// The words that a failure of this stage is reported under.
    pub fn context(&self) -> (r: &'static str)
        ensures
            r@ == self.spec_context(),
    {
        match self {
            Stage::Timezone => "timezone initialization failed",
            Stage::Postgres => "postgres initialization failed",
            Stage::Redis => "redis initialization failed",
            Stage::PreRun => "pre-run task failed",
            Stage::Logging => "logging initialization failed",
            Stage::Router => "router construction failed",
            Stage::Serve => "service startup failed",
        }
    }
}

/// The first failure of start-up: the stage and what it reported.
pub struct BootError {
    pub stage: Stage,
    pub cause: String,
}

impl BootError {
    pub open spec fn spec_message(self) -> Seq<char> {
        self.stage.spec_context() + ": "@ + self.cause@
    }

    /// The report: the stage's context, then the cause.
    pub fn message(&self) -> (r: String)
        ensures
            r@ == self.spec_message(),
    {
        String::from_str(self.stage.context()).concat(": ").concat(self.cause.as_str())
    }
}

/// The stages that start-up runs, given which optional ones are configured.
pub open spec fn plan_of(postgres: bool, redis: bool, pre_run: bool) -> Seq<Stage> {
    seq![Stage::Timezone] + (if postgres {
        seq![Stage::Postgres]
    } else {
        Seq::empty()
    }) + (if redis {
        seq![Stage::Redis]
    } else {
        Seq::empty()
    }) + (if pre_run {
        seq![Stage::PreRun]
    } else {
        Seq::empty()
    }) + seq![Stage::Logging, Stage::Router, Stage::Serve]
}

/// Runs start-up as a strict sequence: it names the next stage, is told how that stage
/// went, and stops for good at the first failure.
pub struct Bootstrapper {
    plan: Vec<Stage>,
    completed: usize,
    failure: Option<BootError>,
}

impl Bootstrapper {
    pub closed spec fn spec_plan(self) -> Seq<Stage> {
        self.plan@
    }

    /// How many stages of the plan have succeeded.
    pub closed spec fn spec_completed(self) -> nat {
        self.completed as nat
    }

    pub closed spec fn spec_failure(self) -> Option<BootError> {
        self.failure
    }

    pub open spec fn wf(self) -> bool {
        &&& self.spec_plan().len() > 0
        &&& self.spec_plan().last() == Stage::Serve
        &&& self.spec_completed() <= self.spec_plan().len()
        &&& self.spec_failure() matches Some(e) ==> self.spec_completed() < self.spec_plan().len()
            && e.stage == self.spec_plan()[self.spec_completed() as int]
    }

    /// The stage to run next: none once one has failed or all have run.
    pub open spec fn spec_next(self) -> Option<Stage> {
        if self.spec_failure() is None && self.spec_completed() < self.spec_plan().len() {
            Some(self.spec_plan()[self.spec_completed() as int])
        } else {
            None
        }
    }

    /// Stage `i` of the plan has run and succeeded.
    pub open spec fn succeeded(self, i: int) -> bool {
        0 <= i < self.spec_completed()
    }

    /// Every stage before serving has succeeded.
    pub open spec fn spec_serving(self) -> bool {
        self.spec_failure() is None && self.spec_completed() + 1 >= self.spec_plan().len()
    }

    /// Nothing has run yet.
    pub fn new(postgres: bool, redis: bool, pre_run: bool) -> (r: Self)
        ensures
            r.wf(),
            r.spec_plan() == plan_of(postgres, redis, pre_run),
            r.spec_completed() == 0,
            r.spec_failure() is None,
    {
        let mut plan: Vec<Stage> = Vec::new();
        plan.push(Stage::Timezone);
        if postgres {
            plan.push(Stage::Postgres);
        }
        if redis {
            plan.push(Stage::Redis);
        }
        if pre_run {
            plan.push(Stage::PreRun);
        }
        plan.push(Stage::Logging);
        plan.push(Stage::Router);
        plan.push(Stage::Serve);
        assert(plan@ =~= plan_of(postgres, redis, pre_run));
        Bootstrapper { plan, completed: 0, failure: None }
    }

    pub fn next_stage(&self) -> (r: Option<Stage>)
        requires
            self.wf(),
        ensures
            r == self.spec_next(),
    {
        if self.failure.is_none() && self.completed < self.plan.len() {
            Some(self.plan[self.completed])
        } else {
            None
        }
    }

    pub fn is_serving(&self) -> (r: bool)
        requires
            self.wf(),
        ensures
            r == self.spec_serving(),
    {
        self.failure.is_none() && self.completed >= self.plan.len() - 1
    }

    /// The first failure, if start-up has stopped on one.
    pub fn failure(&self) -> (r: Option<&BootError>)
        ensures
            r is Some <==> self.spec_failure() is Some,
            r matches Some(e) ==> *e == self.spec_failure()->0,
    {
        match &self.failure {
            Some(e) => Some(e),
            None => None,
        }
    }

    /// Takes the outcome of the stage that `next_stage` named: success moves on to the
    /// following stage; a failure is kept under that stage's name and ends start-up.
    pub fn record(&mut self, outcome: Result<(), String>)
        requires
            old(self).wf(),
            old(self).spec_next() is Some,
        ensures
            final(self).wf(),
            final(self).spec_plan() == old(self).spec_plan(),
            outcome is Ok ==> final(self).spec_completed() == old(self).spec_completed() + 1
                && final(self).spec_failure() is None,
            outcome matches Err(c) ==> (final(self).spec_completed() == old(self).spec_completed()
                && (final(self).spec_failure() matches Some(e) && e.stage == old(
                self,
            ).spec_next()->0 && e.cause@ == c@)),
    {
        match outcome {
            Ok(()) => {
                let total: usize = self.plan.len();
                assert(self.completed < total);
                self.completed = self.completed + 1;
            },
            Err(cause) => {
                let stage = self.plan[self.completed];
                self.failure = Some(BootError { stage, cause });
            },
        }
    }
}

/// A start-up that has failed runs no further stage and never serves, and its report
/// begins with the context of the stage that failed.
pub proof fn lemma_failure_is_final(b: Bootstrapper)
    requires
        b.wf(),
        b.spec_failure() is Some,
    ensures
        b.spec_next() is None,
        !b.spec_serving(),
        b.spec_failure()->0.stage == b.spec_plan()[b.spec_completed() as int],
        b.spec_failure()->0.spec_message().subrange(
            0,
            b.spec_failure()->0.stage.spec_context().len() as int,
        ) == b.spec_failure()->0.stage.spec_context(),
{
    let e = b.spec_failure()->0;
    assert(e.spec_message().subrange(0, e.stage.spec_context().len() as int)
        =~= e.stage.spec_context());
}

/// Serving is reached only after every stage before it in the plan has succeeded.
pub proof fn lemma_serving_after_all_stages(b: Bootstrapper)
    requires
        b.wf(),
        b.spec_serving(),
    ensures
        b.spec_failure() is None,
        forall|i: int| 0 <= i < b.spec_plan().len() - 1 ==> #[trigger] b.succeeded(i),
{
}

} // verus!
