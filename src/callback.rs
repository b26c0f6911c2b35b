//! The rules by which callback data crosses the native boundary.
use vstd::prelude::*;
use crate::descriptor::Problem;

verus! {

/// Why callback data could not cross the boundary.
#[derive(Clone, Copy, Debug, PartialEq, Eq, Structural)]
pub enum MarshalError {
    /// A native count is negative, so it sizes no buffer.
    NegativeCount,
    /// A callback produced another number of values than the buffer holds.
    LengthMismatch,
}

/// The length of a buffer that the solver sized with `count`. The count of
/// each call is authoritative; a negative one sizes no buffer.
pub fn buffer_len(count: i32) -> (r: Result<usize, MarshalError>)
    ensures
        count >= 0 ==> r == Ok::<usize, MarshalError>(count as usize),
        count < 0 ==> r == Err::<usize, MarshalError>(MarshalError::NegativeCount),
{
    if count < 0 {
        Err(MarshalError::NegativeCount)
    } else {
        Ok(count as usize)
    }
}

/// Writes the nonlinear constraint values that a callback produced into the
/// solver's output buffer. Exactly as many values as the buffer holds must
/// be given; otherwise nothing is written.
pub fn store_constraints<T: Copy>(out: &mut [T], values: &[T]) -> (r: Result<(), MarshalError>)
    ensures
        r is Ok <==> values@.len() == old(out)@.len(),
        r is Ok ==> final(out)@ == values@,
        r is Err ==> r == Err::<(), MarshalError>(MarshalError::LengthMismatch) && final(out)@ == old(out)@,
{
    if out.len() != values.len() {
        return Err(MarshalError::LengthMismatch);
    }
    let mut i: usize = 0;
    while i < out.len()
        invariant
            out@.len() == values@.len(),
            i <= out@.len(),
            forall|j: int| 0 <= j < i ==> out@[j] == values@[j],
        decreases out@.len() - i,
    {
        out[i] = values[i];
        i = i + 1;
    }
    assert(out@ =~= values@);
    Ok(())
}

/// Records the objective and nonlinear constraint values that the caller
/// evaluated at the initial point. The constraint values must be as many
/// as the problem's nonlinear constraints; otherwise the problem is left
/// unchanged.
pub fn set_initial_values<T>(problem: &mut Problem<T>, f0: T, nlconstr0: Vec<T>) -> (r: Result<(), MarshalError>)
    ensures
        r is Ok <==> nlconstr0@.len() == old(problem).m_nlcon,
        r is Ok ==> (final(problem).f0 == Some(f0) && final(problem).nlconstr0 == Some(nlconstr0)
            && *final(problem) == (Problem { f0: Some(f0), nlconstr0: Some(nlconstr0), ..*old(problem) })),
        r is Err ==> r == Err::<(), MarshalError>(MarshalError::LengthMismatch) && *final(problem) == *old(problem),
{
    if problem.m_nlcon < 0 || nlconstr0.len() as u64 != problem.m_nlcon as u64 {
        return Err(MarshalError::LengthMismatch);
    }
    problem.f0 = Some(f0);
    problem.nlconstr0 = Some(nlconstr0);
    Ok(())
}

} // verus!
