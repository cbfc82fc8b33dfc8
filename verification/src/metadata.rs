//! Reading a text attribute whose length is not known before the driver has
//! been asked for it, like the name of a column.
//!
//! The driver fills the buffer it is offered as far as the text fits, and
//! always reports the length of the whole text. If the text has been cut off
//! the buffer is grown to the length reported and the driver is asked once
//! more. As with an execution the driver calls are left to the caller: a
//! [`ReadStep`] either asks for the buffer to be filled or is the end of the
//! read.

use vstd::prelude::*;
use crate::outcome::Error;
use crate::outcome::Function;
use crate::outcome::Reply;

verus! {

/// `n`, or the largest length the driver interface has room for if `n` is
/// larger than that.
pub open spec fn small_int(n: int) -> int {
    if n > i16::MAX {
        i16::MAX as int
    } else {
        n
    }
}

/// The length of a buffer as it is told to the driver, which takes the
/// lengths of text buffers as 16 bit integers.
pub fn clamp_small_int(n: usize) -> (clamped: i16)
    ensures
        clamped == small_int(n as int),
{
    if n > i16::MAX as usize {
        i16::MAX
    } else {
        n as i16
    }
}

/// The unit the driver counts the length of a text in.
#[derive(Debug, Clone, Copy, PartialEq, Eq, Structural)]
pub enum LengthUnit {
    /// Characters of 16 bits.
    Characters,
    /// Bytes, two of which make up a character.
    Bytes,
}

impl LengthUnit {
    /// The length of a buffer of `capacity` characters, as it is told to the
    /// driver.
    pub open spec fn buffer_length(self, capacity: int) -> int {
        match self {
            LengthUnit::Characters => small_int(capacity),
            LengthUnit::Bytes => small_int(2 * capacity),
        }
    }

    /// The buffer length it takes to hold a text of the length `reported`
    /// together with its terminating zero.
    pub open spec fn required(self, reported: int) -> int {
        match self {
            LengthUnit::Characters => reported + 1,
            LengthUnit::Bytes => reported + 2,
        }
    }

    /// Number of characters of a text of the length `reported`.
    pub open spec fn content_length(self, reported: int) -> int {
        match self {
            LengthUnit::Characters => reported,
            LengthUnit::Bytes => (reported + 1) / 2,
        }
    }

    /// A text of the length `reported` does not fit into a buffer of
    /// `capacity` characters: the driver has cut it off.
    pub open spec fn truncated(self, reported: int, capacity: int) -> bool {
        self.required(reported) > self.buffer_length(capacity)
    }

    /// The buffer length to pass to the driver along with `buffer`.
    pub fn length_of(self, buffer: &Vec<u16>) -> (length: i16)
        ensures
            length == self.buffer_length(buffer@.len() as int),
    {
        match self {
            LengthUnit::Characters => clamp_small_int(buffer.len()),
            LengthUnit::Bytes => {
                if buffer.len() > i16::MAX as usize {
                    i16::MAX
                } else {
                    clamp_small_int(2 * buffer.len())
                }
            },
        }
    }
}

/// The read of a text attribute which waits for the driver to fill the
/// buffer.
#[derive(Debug)]
pub struct AttributeRead {
    function: Function,
    unit: LengthUnit,
    retried: bool,
}

/// A read as the contracts speak of it.
pub struct AttributeReadView {
    /// The driver function which fills the buffer.
    pub function: Function,
    /// The unit in which that function reports the length of the text.
    pub unit: LengthUnit,
    /// The buffer has been grown already.
    pub retried: bool,
}

/// How the read of an attribute goes on.
#[derive(Debug)]
pub enum ReadStep {
    /// The caller has the driver fill the buffer, all of it, and hands it
    /// back to the read together with the answer.
    Fill(AttributeRead, Vec<u16>),
    /// The read is over. If it succeeded, this is the text without its
    /// terminating zero.
    Done(Result<Vec<u16>, Error>),
}

/// A step as the contracts speak of it. Of a buffer to fill only the length
/// matters.
pub enum ReadStepView {
    Fill(AttributeReadView, nat),
    Done(Result<Seq<u16>, Error>),
}

/// The error of a driver which reports a length there is no text for.
pub open spec fn invalid_length(function: Function) -> Error {
    Error::Driver { function, diagnostic: None }
}

/// The decision after the driver has filled `buffer` and reported the length
/// `reported`.
///
/// * If the call failed, so does the read.
/// * If the text fits into the buffer together with its terminating zero, the
///   read is over: the text is what the buffer holds up to the length
///   reported.
/// * If it does not fit, the driver is asked once more with a buffer of
///   `reported + 1` characters. The driver is taken at its word the second
///   time: a text which still does not fit, or a negative length, is an error
///   of the driver.
pub open spec fn after_fill(
    v: AttributeReadView,
    buffer: Seq<u16>,
    reply: Reply,
    reported: i16,
) -> ReadStepView {
    if !reply.code.succeeded() {
        ReadStepView::Done(Err(reply.failure(v.function)))
    } else if reported < 0 {
        ReadStepView::Done(Err(invalid_length(v.function)))
    } else if v.unit.truncated(reported as int, buffer.len() as int) {
        if v.retried {
            ReadStepView::Done(Err(invalid_length(v.function)))
        } else {
            ReadStepView::Fill(AttributeReadView { retried: true, ..v }, (reported + 1) as nat)
        }
    } else {
        ReadStepView::Done(Ok(buffer.subrange(0, v.unit.content_length(reported as int))))
    }
}

impl View for AttributeRead {
    type V = AttributeReadView;

    closed spec fn view(&self) -> AttributeReadView {
        AttributeReadView { function: self.function, unit: self.unit, retried: self.retried }
    }
}

impl View for ReadStep {
    type V = ReadStepView;

    open spec fn view(&self) -> ReadStepView {
        match *self {
            ReadStep::Fill(read, buffer) => ReadStepView::Fill(read@, buffer@.len()),
            ReadStep::Done(Ok(text)) => ReadStepView::Done(Ok(text@)),
            ReadStep::Done(Err(error)) => ReadStepView::Done(Err(error)),
        }
    }
}

/// Starts to read a text attribute by means of `function`, which reports
/// lengths in `unit`.
///
/// * `buffer`: The buffer to read into. What it holds is of no interest.
/// * `capacity`: Number of characters to offer to the driver with the first
///   call. The closer it is to the length of the text, the less likely a
///   second call is.
pub fn read_attribute(function: Function, unit: LengthUnit, buffer: Vec<u16>, capacity: usize) -> (step:
    ReadStep)
    ensures
        step@ == ReadStepView::Fill(
            AttributeReadView { function, unit, retried: false },
            capacity as nat,
        ),
{
    let (read, buffer) = AttributeRead::begin(function, unit, buffer, capacity);
    ReadStep::Fill(read, buffer)
}

impl AttributeRead {
    /// A read which has not asked the driver yet, and the buffer to offer to
    /// the driver with the first call: `buffer`, made `capacity` characters
    /// long.
    pub fn begin(function: Function, unit: LengthUnit, buffer: Vec<u16>, capacity: usize) -> (started:
        (AttributeRead, Vec<u16>))
        ensures
            started.0@ == (AttributeReadView { function, unit, retried: false }),
            started.1@.len() == capacity,
    {
        let mut buffer = buffer;
        buffer.resize(capacity, 0);
        (AttributeRead { function, unit, retried: false }, buffer)
    }

    pub fn unit(&self) -> (unit: LengthUnit)
        ensures
            unit == self@.unit,
    {
        self.unit
    }

    /// Goes on with the read after the driver has filled `buffer`.
    ///
    /// * `reply`: Answer of the driver to the call.
    /// * `reported`: Length of the text as the driver reported it, without
    ///   the terminating zero.
    pub fn filled(self, buffer: Vec<u16>, reply: Reply, reported: i16) -> (step: ReadStep)
        ensures
            step@ == after_fill(self@, buffer@, reply, reported),
    {
        let mut buffer = buffer;
        if !reply.code.is_success() {
            return ReadStep::Done(Err(reply.into_failure(self.function)));
        }
        if reported < 0 {
            return ReadStep::Done(Err(Error::Driver { function: self.function, diagnostic: None }));
        }
        let offered: i32 = self.unit.length_of(&buffer) as i32;
        let required: i32 = match self.unit {
            LengthUnit::Characters => reported as i32 + 1,
            LengthUnit::Bytes => reported as i32 + 2,
        };
        if required > offered {
            if self.retried {
                ReadStep::Done(Err(Error::Driver { function: self.function, diagnostic: None }))
            } else {
                buffer.resize(reported as usize + 1, 0);
                ReadStep::Fill(
                    AttributeRead { function: self.function, unit: self.unit, retried: true },
                    buffer,
                )
            }
        } else {
            let length: usize = match self.unit {
                LengthUnit::Characters => reported as usize,
                LengthUnit::Bytes => (reported as usize + 1) / 2,
            };
            buffer.truncate(length);
            ReadStep::Done(Ok(buffer))
        }
    }
}

/// The buffer is grown at most once: a read which has grown it already is
/// over with the next answer of the driver, whatever that answer is.
pub proof fn lemma_read_retries_at_most_once(
    v: AttributeReadView,
    buffer: Seq<u16>,
    reply: Reply,
    reported: i16,
)
    requires
        v.retried,
    ensures
        after_fill(v, buffer, reply, reported) is Done,
{
}

/// A text which fits into the buffer is read with a single call.
pub proof fn lemma_fitting_text_is_read_at_once(
    v: AttributeReadView,
    buffer: Seq<u16>,
    reply: Reply,
    reported: i16,
)
    requires
        reply.code.succeeded(),
        0 <= reported,
        !v.unit.truncated(reported as int, buffer.len() as int),
    ensures
        after_fill(v, buffer, reply, reported) matches ReadStepView::Done(Ok(text))
            && text.len() == v.unit.content_length(reported as int) && text == buffer.subrange(
            0,
            text.len() as int,
        ),
{
}

/// A text longer than the buffer offered first is read with exactly one more
/// call.
///
/// If the driver reports the length `reported` for a text which does not fit
/// into `first`, the buffer of the second call has room for `reported + 1`
/// characters. If the driver then fills that buffer, `second`, and reports
/// the same length again, the read is over: the text is what the driver has
/// written, and it is as long as reported. With lengths counted in
/// characters that is `reported` itself. Left out are the lengths so close to
/// the largest one the interface can express, that no buffer length can be
/// told to the driver which has room for the text and its terminating zero.
pub proof fn lemma_truncated_text_is_read_with_one_retry(
    v: AttributeReadView,
    first: Seq<u16>,
    second: Seq<u16>,
    reply: Reply,
    again: Reply,
    reported: i16,
)
    requires
        !v.retried,
        reply.code.succeeded(),
        again.code.succeeded(),
        0 <= reported,
        v.unit.required(reported as int) <= i16::MAX,
        v.unit.truncated(reported as int, first.len() as int),
        second.len() == reported + 1,
    ensures
        after_fill(v, first, reply, reported) == ReadStepView::Fill(
            AttributeReadView { retried: true, ..v },
            second.len(),
        ),
        second.len() >= reported,
        after_fill(AttributeReadView { retried: true, ..v }, second, again, reported)
            matches ReadStepView::Done(Ok(text)) && text.len() == v.unit.content_length(
            reported as int,
        ) && text == second.subrange(0, text.len() as int),
        v.unit == LengthUnit::Characters ==> v.unit.content_length(reported as int) == reported,
{
}

/// Whenever the length reported exceeds the number of characters offered,
/// the text has been cut off.
pub proof fn lemma_longer_than_buffer_is_truncated(unit: LengthUnit, reported: i16, capacity: nat)
    requires
        unit == LengthUnit::Characters,
        reported > capacity,
    ensures
        unit.truncated(reported as int, capacity as int),
{
}

} // verus!
