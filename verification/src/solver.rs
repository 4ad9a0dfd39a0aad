use vstd::prelude::*;
use vstd::string::StringSliceAdditionalSpecFns;
use crate::marshal::{MarshalError, marshals, nul_free};
use crate::param::{
    ParamError, ParamResult, ParamSetting, ParamValue, SettingModel, param_code_known,
    param_result_of, PARAM_CODE_CHANGED,
};
use crate::problem::{Problem, ProblemModel};
use crate::value::RealValue;

verus! {

/// Mathematical image of a solver: the problem it owns, if any, the
/// configuration the engine has accepted so far, in order, and the
/// parameter request awaiting the engine's answer, if any.
#[verifier::ext_equal]
pub struct SolverModel {
    pub problem: Option<ProblemModel>,
    pub config: Seq<SettingModel>,
    pub pending: Option<SettingModel>,
}

/// The full state of a solver.
#[derive(Debug)]
pub struct SolverData {
    /// The problem this solver owns, transferred in by `load_problem`.
    pub problem: Option<Problem>,
    /// The settings the engine has accepted, in acceptance order.
    pub config: Vec<ParamSetting>,
    /// A marshaled request not yet answered by the engine.
    pub pending: Option<ParamSetting>,
}

impl View for SolverData {
    type V = SolverModel;

    open spec fn view(&self) -> SolverModel {
        SolverModel {
            problem: match self.problem {
                Some(p) => Some(p@),
                None => None,
            },
            config: self.config@.map_values(|s: ParamSetting| s@),
            pending: match self.pending {
                Some(s) => Some(s@),
                None => None,
            },
        }
    }
}

/// The owner of one solver resource.
///
/// At most one problem is owned at a time; a problem is transferred in
/// by move and never shared back out, and destroying the solver also
/// releases the owned problem (see `teardown_plan`).
#[derive(Debug)]
pub struct Solver {
    data: SolverData,
}

impl View for Solver {
    type V = SolverModel;

    closed spec fn view(&self) -> SolverModel {
        self.data@
    }
}

impl Solver {
    /// The underlying state: owned problem, accepted configuration, and
    /// any pending parameter request.
    pub fn raw(&self) -> (r: &SolverData)
        ensures
            r@ == self@,
    {
        &self.data
    }

    /// A fresh solver: no problem owned, nothing configured.
    pub fn new() -> (s: Solver)
        ensures
            s@.problem is None,
            s@.config.len() == 0,
            s@.pending is None,
    {
        Solver { data: SolverData { problem: None, config: Vec::new(), pending: None } }
    }

    /// Whether a problem has been loaded. Starting the engine is only
    /// meaningful after one has.
    pub fn has_problem(&self) -> (b: bool)
        ensures
            b == (self@.problem is Some),
    {
        self.data.problem.is_some()
    }

    /// Transfers `problem` into the solver.
    ///
    /// The problem value is consumed: after this call the caller's
    /// binding is gone, statically, and only the solver can reach the
    /// transferred resource — ownership moves, nothing is shared. A
    /// problem loaded while another is owned replaces it; the replaced
    /// description leaves the solver here and is released with it.
    pub fn load_problem(&mut self, problem: Problem)
        ensures
            final(self)@.problem == Some(problem@),
            final(self)@.config == old(self)@.config,
            final(self)@.pending == old(self)@.pending,
    {
        self.data.problem = Some(problem);
    }

    /// Marshals one parameter request and parks it for the engine.
    /// Fails, touching nothing, when the key cannot cross the boundary.
    pub(crate) fn record_request(&mut self, key: &str, value: ParamValue) -> (r: Result<
        (),
        ParamError,
    >)
        ensures
            r is Ok <==> nul_free(key.spec_bytes()),
            r is Ok ==> final(self)@.pending == Some(
                (SettingModel { key: key@, value: value@ }),
            ),
            r is Ok ==> final(self)@.config == old(self)@.config
                && final(self)@.problem == old(self)@.problem,
            r is Err ==> *final(self) == *old(self)
                && r == Err::<(), ParamError>(ParamError::Marshal(MarshalError::EmbeddedNul)),
    {
        if !marshals(key) {
            return Err(ParamError::Marshal(MarshalError::EmbeddedNul));
        }
        self.data.pending = Some(ParamSetting { key: key.to_owned(), value });
        Ok(())
    }

    /// Resolves the pending parameter request with the engine's status
    /// code. Only the "changed" code is success and moves the request
    /// into the accepted configuration; every other code leaves the
    /// prior configuration exactly as it was and names the rejection.
    /// The code set is closed against one engine version, so an unknown
    /// code is excluded by contract: it is a fatal condition for the
    /// caller, not a recoverable outcome.
    pub fn confirm_param(&mut self, code: u32) -> (r: Result<(), ParamError>)
        requires
            old(self)@.pending is Some,
            param_code_known(code),
        ensures
            final(self)@.problem == old(self)@.problem,
            final(self)@.pending is None,
            code == PARAM_CODE_CHANGED ==> r is Ok && final(self)@.config == old(
                self,
            )@.config.push(old(self)@.pending->Some_0),
            code != PARAM_CODE_CHANGED ==> final(self)@.config == old(self)@.config && r == Err::<
                (),
                ParamError,
            >(ParamError::Rejected(param_result_of(code))),
    {
        let pending = self.data.pending.take();
        if code == PARAM_CODE_CHANGED {
            match pending {
                Some(s) => {
                    self.data.config.push(s);
                    proof {
                        assert(self@.config =~= old(self)@.config.push(
                            old(self)@.pending->Some_0,
                        ));
                    }
                },
                None => {
                    proof {
                        assert(false);
                    }
                },
            }
            Ok(())
        } else {
            Err(ParamError::Rejected(ParamResult::from_code(code)))
        }
    }

    /// The exact teardown sequence for this solver: the solver resource
    /// first, then the owned problem resource if one is held — the
    /// ownership cascade, each resource exactly once.
    pub fn teardown_plan(&self) -> (r: Vec<ReleaseStep>)
        ensures
            self@.problem is Some ==> r@ == seq![ReleaseStep::Solver, ReleaseStep::Problem],
            self@.problem is None ==> r@ == seq![ReleaseStep::Solver],
    {
        let mut plan: Vec<ReleaseStep> = Vec::new();
        plan.push(ReleaseStep::Solver);
        if self.data.problem.is_some() {
            plan.push(ReleaseStep::Problem);
            proof {
                assert(plan@ =~= seq![ReleaseStep::Solver, ReleaseStep::Problem]);
            }
        } else {
            proof {
                assert(plan@ =~= seq![ReleaseStep::Solver]);
            }
        }
        plan
    }
}

/// One native release call of a teardown.
#[derive(Debug, Clone, Copy, PartialEq, Eq, Structural)]
pub enum ReleaseStep {
    /// Release the solver resource.
    Solver,
    /// Release the problem resource the solver owns.
    Problem,
}

/// How often `step` occurs in a teardown sequence.
pub open spec fn count_steps(plan: Seq<ReleaseStep>, step: ReleaseStep) -> int
    decreases plan.len(),
{
    if plan.len() == 0 {
        0
    } else {
        (if plan[0] == step {
            1int
        } else {
            0int
        }) + count_steps(plan.drop_first(), step)
    }
}

/// Law: tearing a solver down releases the solver resource exactly
/// once, and the problem resource exactly once when a problem is owned
/// and never otherwise — nothing leaks and nothing is released twice.
pub proof fn lemma_teardown_releases_each_once(owned: bool, plan: Seq<ReleaseStep>)
    requires
        owned ==> plan == seq![ReleaseStep::Solver, ReleaseStep::Problem],
        !owned ==> plan == seq![ReleaseStep::Solver],
    ensures
        count_steps(plan, ReleaseStep::Solver) == 1,
        count_steps(plan, ReleaseStep::Problem) == (if owned {
            1int
        } else {
            0int
        }),
{
    let empty = Seq::<ReleaseStep>::empty();
    assert(count_steps(empty, ReleaseStep::Solver) == 0);
    assert(count_steps(empty, ReleaseStep::Problem) == 0);
    if owned {
        let tail = seq![ReleaseStep::Problem];
        assert(plan.drop_first() =~= tail);
        assert(tail.drop_first() =~= empty);
        assert(count_steps(tail, ReleaseStep::Solver) == 0);
        assert(count_steps(tail, ReleaseStep::Problem) == 1);
    } else {
        assert(plan.drop_first() =~= empty);
    }
}

/// Native status code: solved to optimality.
pub const SOLVE_CODE_OPTIMAL: u32 = 0;

/// Native status code: stopped early with a feasible solution.
pub const SOLVE_CODE_FEASIBLE: u32 = 1;

/// Native status code: stopped early without a solution.
pub const SOLVE_CODE_STOPPED: u32 = 2;

/// Native status code: detected unbounded or infeasible.
pub const SOLVE_CODE_UNBND_OR_INFEAS: u32 = 3;

/// Native status code: detected unbounded.
pub const SOLVE_CODE_UNBOUNDED: u32 = 4;

/// Native status code: detected infeasible.
pub const SOLVE_CODE_INFEASIBLE: u32 = 5;

/// The closed set of native solve status codes. A code outside it
/// signals a version mismatch with the engine and is fatal for the
/// caller, so the translation excludes it.
pub open spec fn solve_code_known(code: u32) -> bool {
    ||| code == SOLVE_CODE_OPTIMAL
    ||| code == SOLVE_CODE_FEASIBLE
    ||| code == SOLVE_CODE_STOPPED
    ||| code == SOLVE_CODE_UNBND_OR_INFEAS
    ||| code == SOLVE_CODE_UNBOUNDED
    ||| code == SOLVE_CODE_INFEASIBLE
}

/// The classification named by a solve status code.
pub open spec fn solve_result_of(code: u32) -> SolveResult {
    if code == SOLVE_CODE_OPTIMAL {
        SolveResult::Optimal
    } else if code == SOLVE_CODE_FEASIBLE {
        SolveResult::Feasible
    } else if code == SOLVE_CODE_STOPPED {
        SolveResult::Stopped
    } else if code == SOLVE_CODE_UNBND_OR_INFEAS {
        SolveResult::UnboundedOrInfeasible
    } else if code == SOLVE_CODE_UNBOUNDED {
        SolveResult::Unbounded
    } else {
        SolveResult::Infeasible
    }
}

/// The possible outcomes of a solve, one for each code of the
/// engine's closed status-code set.
#[derive(Debug, Clone, Copy, PartialEq, Eq, Structural)]
pub enum SolveResult {
    /// The problem was solved to optimality.
    Optimal,
    /// The solving stopped early with a feasible solution due to limits or interrupts.
    Feasible,
    /// The solving stopped early and without a solution due to limits or interrupts.
    Stopped,
    /// The problem was detected to be unbounded or infeasible.
    UnboundedOrInfeasible,
    /// The problem was detected to be unbounded.
    Unbounded,
    /// The problem was detected to be infeasible.
    Infeasible,
}

impl SolveResult {
    /// Translates a native solve status code, totally over the closed
    /// set; an unknown code is excluded by contract, since it can only
    /// mean a version mismatch that must not be silently tolerated.
    pub fn from_code(code: u32) -> (r: SolveResult)
        requires
            solve_code_known(code),
        ensures
            r == solve_result_of(code),
    {
        if code == SOLVE_CODE_OPTIMAL {
            SolveResult::Optimal
        } else if code == SOLVE_CODE_FEASIBLE {
            SolveResult::Feasible
        } else if code == SOLVE_CODE_STOPPED {
            SolveResult::Stopped
        } else if code == SOLVE_CODE_UNBND_OR_INFEAS {
            SolveResult::UnboundedOrInfeasible
        } else if code == SOLVE_CODE_UNBOUNDED {
            SolveResult::Unbounded
        } else {
            SolveResult::Infeasible
        }
    }
}

/// A read-only snapshot of one solve's numeric outcomes, exactly as the
/// engine reported them: nothing is recomputed or validated here.
#[derive(Debug, Clone, Copy, PartialEq, Eq, Structural)]
pub struct SolveInfo {
    /// Proven bound on the optimal objective value.
    pub dualbound: RealValue,
    /// Time spent solving.
    pub solvingtime: RealValue,
    /// Time spent presolving.
    pub presolvetime: RealValue,
    /// Objective value of the best solution.
    pub bestsol_obj: RealValue,
    /// Integrality violation of the best solution.
    pub bestsol_intviol: RealValue,
    /// Bound violation of the best solution.
    pub bestsol_boundviol: RealValue,
    /// Constraint violation of the best solution.
    pub bestsol_consviol: RealValue,
    /// The engine's solve status code.
    pub solve_code: u32,
}

impl SolveInfo {
    /// Wraps the fields of the engine's result record, unchanged.
    pub fn new(
        dualbound: RealValue,
        solvingtime: RealValue,
        presolvetime: RealValue,
        bestsol_obj: RealValue,
        bestsol_intviol: RealValue,
        bestsol_boundviol: RealValue,
        bestsol_consviol: RealValue,
        solve_code: u32,
    ) -> (r: SolveInfo)
        ensures
            r == (SolveInfo {
                dualbound,
                solvingtime,
                presolvetime,
                bestsol_obj,
                bestsol_intviol,
                bestsol_boundviol,
                bestsol_consviol,
                solve_code,
            }),
    {
        SolveInfo {
            dualbound,
            solvingtime,
            presolvetime,
            bestsol_obj,
            bestsol_intviol,
            bestsol_boundviol,
            bestsol_consviol,
            solve_code,
        }
    }

    /// The dual bound of the solution.
    pub fn dualbound(&self) -> (r: RealValue)
        ensures
            r == self.dualbound,
    {
        self.dualbound
    }

    /// The solving time.
    pub fn solving_time(&self) -> (r: RealValue)
        ensures
            r == self.solvingtime,
    {
        self.solvingtime
    }

    /// The presolve time.
    pub fn presolve_time(&self) -> (r: RealValue)
        ensures
            r == self.presolvetime,
    {
        self.presolvetime
    }

    /// The best solution's objective value.
    pub fn best_solution_objective(&self) -> (r: RealValue)
        ensures
            r == self.bestsol_obj,
    {
        self.bestsol_obj
    }

    /// The best solution's integrality violation.
    pub fn best_solution_integer_violation(&self) -> (r: RealValue)
        ensures
            r == self.bestsol_intviol,
    {
        self.bestsol_intviol
    }

    /// The best solution's bound violation.
    pub fn best_solution_bound_violation(&self) -> (r: RealValue)
        ensures
            r == self.bestsol_boundviol,
    {
        self.bestsol_boundviol
    }

    /// The best solution's constraint violation.
    pub fn best_solution_constraint_violation(&self) -> (r: RealValue)
        ensures
            r == self.bestsol_consviol,
    {
        self.bestsol_consviol
    }

    /// The solve outcome that the engine's status code names; a code
    /// outside the closed set is fatal and excluded by contract.
    pub fn solve_result(&self) -> (r: SolveResult)
        requires
            solve_code_known(self.solve_code),
        ensures
            r == solve_result_of(self.solve_code),
    {
        SolveResult::from_code(self.solve_code)
    }
}

} // verus!
