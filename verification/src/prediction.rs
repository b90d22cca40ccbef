//! The temperature prediction window. The regression itself works in
//! floating point and is the caller's part.
use vstd::prelude::*;

verus! {

pub struct PredictionEngine {
    /// How many recent temperatures the trend is fitted over.
    pub window_size: usize,
    /// How many steps ahead the prediction looks.
    pub prediction_steps: usize,
}

impl PredictionEngine {
    pub fn new(window_size: usize, prediction_steps: usize) -> (r: Self)
        ensures
            r.window_size == window_size,
            r.prediction_steps == prediction_steps,
    {
        PredictionEngine { window_size, prediction_steps }
    }

    /// How many samples of a history of `history_len` the trend uses: at most
    /// the window, and no trend below two.
    pub fn samples_used(&self, history_len: usize) -> (r: Option<usize>)
        ensures
            ({
                let n = if history_len <= self.window_size {
                    history_len
                } else {
                    self.window_size
                };
                if n < 2 {
                    r.is_none()
                } else {
                    r == Some(n)
                }
            }),
    {
        let n = if history_len <= self.window_size {
            history_len
        } else {
            self.window_size
        };
        if n < 2 {
            None
        } else {
            Some(n)
        }
    }
}

} // verus!
