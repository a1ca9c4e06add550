//! The terminal video sink: it keeps the negotiated video format and
//! decides the outcome of showing each frame.

use vstd::prelude::*;
use crate::element::FlowError;

verus! {

/// The state of the terminal sink: the negotiated video format `I`, once
/// caps were set.
pub struct ChafaSink<I> {
    info: Option<I>,
}

impl<I> View for ChafaSink<I> {
    type V = Option<I>;

    closed spec fn view(&self) -> Option<I> {
        self.info
    }
}

impl<I> ChafaSink<I> {
    /// A sink without a negotiated format.
    pub fn new() -> (s: Self)
        ensures
            s@ == None::<I>,
    {
        ChafaSink { info: None }
    }

    /// Records the format of newly set caps, replacing the previous one.
    pub fn set_caps(&mut self, info: I)
        ensures
            final(self)@ == Some(info),
    {
        self.info = Some(info);
    }

    /// The format to map a frame with; without one, the frame cannot be
    /// shown because nothing was negotiated.
    pub fn frame_info(&self) -> (r: Result<&I, FlowError>)
        ensures
            match self@ {
                Some(i) => r == Ok::<&I, FlowError>(&i),
                None => r == Err::<&I, FlowError>(FlowError::NotNegotiated),
            },
    {
        match &self.info {
            Some(i) => Ok(i),
            None => Err(FlowError::NotNegotiated),
        }
    }
}

/// The outcome of showing a frame once the format is known: it fails if
/// the frame could not be mapped or written to the terminal.
pub fn show_frame_result(mapped: bool, written: bool) -> (r: Result<(), FlowError>)
    ensures
        r == (if mapped && written {
            Ok::<(), FlowError>(())
        } else {
            Err::<(), FlowError>(FlowError::Error)
        }),
{
    if !mapped {
        return Err(FlowError::Error);
    }
    if !written {
        return Err(FlowError::Error);
    }
    Ok(())
}

} // verus!
