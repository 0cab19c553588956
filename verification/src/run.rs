//! Stepping and running a machine against an output sink.

use vstd::prelude::*;
use crate::error::MachineError;
use crate::machine::{Machine, Signal};
use crate::sink::{stdout, write_all};
use crate::state::Outcome;

verus! {

/// Whether `r` is a result that a step with the given outcome may return:
/// the outcome decides it, except that an output may also fail to be written.
pub open spec fn step_result(outcome: Outcome, r: Result<bool, MachineError>) -> bool {
    match outcome {
        Outcome::Continue => r == Ok::<bool, MachineError>(false),
        Outcome::Halt => r == Ok::<bool, MachineError>(true),
        Outcome::Fail(e) => r == Err::<bool, MachineError>(e),
        Outcome::Emit(_) => r == Ok::<bool, MachineError>(false) || r == Err::<
            bool,
            MachineError,
        >(MachineError::WriteError),
    }
}

/// Whether `r` is a result that a run may return when its last step has the
/// given outcome.
pub open spec fn run_result(outcome: Outcome, r: Result<(), MachineError>) -> bool {
    match outcome {
        Outcome::Continue => false,
        Outcome::Halt => r == Ok::<(), MachineError>(()),
        Outcome::Fail(e) => r == Err::<(), MachineError>(e),
        Outcome::Emit(_) => r == Err::<(), MachineError>(MachineError::WriteError),
    }
}

/// The result of an output instruction, given whether the sink accepted
/// its bytes.
pub fn write_outcome(written: bool) -> (r: Result<bool, MachineError>)
    ensures
        written ==> r == Ok::<bool, MachineError>(false),
        !written ==> r == Err::<bool, MachineError>(MachineError::WriteError),
{
    if written {
        Ok(false)
    } else {
        Err(MachineError::WriteError)
    }
}

impl Machine {
    /// Executes the next instruction: decodes the instruction at the
    /// instruction pointer, moves the pointer past it, then carries it out.
    /// Output goes to `fd`.
    ///
    /// Returns `true` if the program is over and `false` if it goes on.
    pub fn step_on<T: std::io::Write>(&mut self, fd: &mut T) -> (r: Result<bool, MachineError>)
        ensures
            final(self)@ == old(self)@.step().state,
            step_result(old(self)@.step().outcome, r),
    {
        match self.advance() {
            Err(e) => Err(e),
            Ok(Signal::Continue) => Ok(false),
            Ok(Signal::Halt) => Ok(true),
            Ok(Signal::Output(bytes)) => {
                let written = write_all(fd, bytes.as_slice());
                write_outcome(written)
            },
        }
    }

    /// As [`Machine::step_on`], with the standard output as the sink.
    pub fn step(&mut self) -> (r: Result<bool, MachineError>)
        ensures
            final(self)@ == old(self)@.step().state,
            step_result(old(self)@.step().outcome, r),
    {
        let mut fd = stdout();
        self.step_on(&mut fd)
    }

    /// Runs until the program is over, an instruction fails, or `limit`
    /// steps are done. Output goes to `fd`.
    ///
    /// Returns `true` if the program is over and `false` if it was still
    /// going on after `limit` steps.
    pub fn run_bounded_on<T: std::io::Write>(&mut self, fd: &mut T, limit: u64) -> (r: Result<
        bool,
        MachineError,
    >)
        ensures
            r == Ok::<bool, MachineError>(false) ==> old(self)@.continues_for(limit as nat)
                && final(self)@ == old(self)@.after(limit as nat),
            r != Ok::<bool, MachineError>(false) ==> exists|k: nat|
                {
                    &&& k < limit
                    &&& old(self)@.continues_for(k)
                    &&& final(self)@ == old(self)@.after(k + 1)
                    &&& step_result(#[trigger] old(self)@.after(k).step().outcome, r)
                },
    {
        let ghost start = self@;
        let mut done: u64 = 0;
        while done < limit
            invariant
                start == old(self)@,
                done <= limit,
                start.continues_for(done as nat),
                self@ == start.after(done as nat),
            decreases limit - done,
        {
            let ghost before = self@;
            match self.step_on(fd) {
                Ok(false) => {
                    assert(before.continues());
                    done = done + 1;
                },
                r => {
                    assert(start.after((done + 1) as nat) == self@);
                    assert(step_result(start.after(done as nat).step().outcome, r));
                    return r;
                },
            }
        }
        Ok(false)
    }

    /// Runs until the program is over or an instruction fails. Output goes
    /// to `fd`.
    ///
    /// A contract can speak only of a run that ends, so the program is asked
    /// to come to rest: one that never does runs forever, and
    /// [`Machine::run_bounded_on`] is there for it.
    ///
    /// The run is the sequence of steps up to the first that does not
    /// continue: for some `k`, the first `k` steps continue and step `k + 1`
    /// halts, fails, or has its output refused by the sink.
    pub fn run_on<T: std::io::Write>(&mut self, fd: &mut T) -> (r: Result<(), MachineError>)
        requires
            exists|n: nat| old(self)@.stops_within(n),
        ensures
            exists|k: nat|
                {
                    &&& old(self)@.continues_for(k)
                    &&& final(self)@ == old(self)@.after(k + 1)
                    &&& run_result(#[trigger] old(self)@.after(k).step().outcome, r)
                },
    {
        let ghost start = self@;
        let ghost fuel: nat = choose|n: nat| start.stops_within(n);
        let ghost mut k: nat = 0;
        loop
            invariant
                start == old(self)@,
                k <= fuel,
                start.continues_for(k),
                self@ == start.after(k),
                self@.stops_within((fuel - k) as nat),
            decreases fuel - k,
        {
            let ghost before = self@;
            match self.step_on(fd) {
                Ok(true) => {
                    assert(start.after(k + 1) == self@);
                    return Ok(());
                },
                Err(e) => {
                    assert(start.after(k + 1) == self@);
                    return Err(e);
                },
                Ok(false) => {
                    proof {
                        assert(before.continues());
                        k = k + 1;
                    }
                },
            }
        }
    }

    /// As [`Machine::run_on`], with the standard output as the sink.
    pub fn run(&mut self) -> (r: Result<(), MachineError>)
        requires
            exists|n: nat| old(self)@.stops_within(n),
        ensures
            exists|k: nat|
                {
                    &&& old(self)@.continues_for(k)
                    &&& final(self)@ == old(self)@.after(k + 1)
                    &&& run_result(#[trigger] old(self)@.after(k).step().outcome, r)
                },
    {
        let mut fd = stdout();
        self.run_on(&mut fd)
    }
}

} // verus!
