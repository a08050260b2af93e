//! Option list parser: the variable-length, 4-byte-aligned
//! type-length-value records embedded in a Section Header Block body.
//!
//! Each record is a 16-bit code, a 16-bit value length, the value bytes,
//! and 0–3 padding bytes up to the next 4-byte boundary.  A record with
//! code 0 is the explicit end-of-options marker: it is yielded once and
//! terminates the list even if bytes remain in the region.

use vstd::prelude::*;

use crate::error::ErrorKind;
use crate::reader::{read_u16, u16_at, ByteOrder};

verus! {

/// One parsed option record, borrowing its value from the options region.
#[derive(Clone, Copy, Debug, PartialEq, Eq)]
pub struct OptionRecord<'a> {
    /// The option code; 0 marks the end of the list.
    pub code: u16,
    /// The declared `length` bytes of the value, without padding.
    pub value: &'a [u8],
}

/// The mathematical image of one option record.
#[verifier::ext_equal]
pub ghost struct OptionModel {
    /// The option code.
    pub code: int,
    /// The value bytes.
    pub value: Seq<u8>,
}

impl<'a> OptionRecord<'a> {
    /// The record as its mathematical image.
    pub open spec fn model(self) -> OptionModel {
        OptionModel { code: self.code as int, value: self.value@ }
    }
}

/// The images of a sequence of records.
pub open spec fn models(s: Seq<OptionRecord>) -> Seq<OptionModel> {
    s.map_values(|r: OptionRecord| r.model())
}

/// The smallest offset at or after `n` on a 4-byte boundary.
pub open spec fn align4(n: int) -> int
    recommends
        0 <= n,
{
    if n % 4 == 0 {
        n
    } else {
        n + (4 - n % 4)
    }
}

/// One step of the scan at `pos`: the record found there together with
/// the cursor's next offset, `None` when the region is exhausted, or the
/// reason this step rejects the region.
///
/// A partial record header fails with `Truncated`, a value extending
/// past the region with `InvalidLength`, and padding extending past the
/// region with `Truncated`.
pub open spec fn spec_step(region: Seq<u8>, o: ByteOrder, pos: int) -> Result<
    Option<(OptionModel, int)>,
    ErrorKind,
>
    recommends
        0 <= pos <= region.len(),
{
    if pos < 0 || pos >= region.len() {
        Ok(None)
    } else if region.len() - pos < 4 {
        Err(ErrorKind::Truncated)
    } else {
        let code = u16_at(region, o, pos);
        let len = u16_at(region, o, pos + 2);
        if pos + 4 + len > region.len() {
            Err(ErrorKind::InvalidLength)
        } else {
            let rec = OptionModel { code, value: region.subrange(pos + 4, pos + 4 + len) };
            let next = align4(pos + 4 + len);
            if next > region.len() {
                Err(ErrorKind::Truncated)
            } else {
                Ok(Some((rec, next)))
            }
        }
    }
}

/// The sequence of option records encoded in `region` from offset `pos`
/// onward under order `o`, or the reason the encoding is rejected.
///
/// The list ends when the region is exhausted or when a record with
/// code 0 has been yielded; the terminator is yielded once even if
/// bytes remain after it.
pub open spec fn spec_options_from(region: Seq<u8>, o: ByteOrder, pos: int) -> Result<
    Seq<OptionModel>,
    ErrorKind,
>
    recommends
        0 <= pos <= region.len(),
    decreases region.len() - pos,
{
    match spec_step(region, o, pos) {
        Err(e) => Err(e),
        Ok(None) => Ok(Seq::empty()),
        Ok(Some((rec, next))) => if rec.code == 0 {
            Ok(seq![rec])
        } else {
            match spec_options_from(region, o, next) {
                Ok(rest) => Ok(seq![rec] + rest),
                Err(e) => Err(e),
            }
        },
    }
}

/// The options encoded in the whole of `region` under order `o`.
pub open spec fn spec_options(region: Seq<u8>, o: ByteOrder) -> Result<
    Seq<OptionModel>,
    ErrorKind,
> {
    spec_options_from(region, o, 0)
}

/// Parses the option records of `region` into a vector.
///
/// Succeeds exactly when `spec_options` accepts the region, and then
/// returns records whose images are that sequence; fails with the same
/// error otherwise.
pub fn collect_options<'a>(region: &'a [u8], o: ByteOrder) -> (r: Result<
    Vec<OptionRecord<'a>>,
    ErrorKind,
>)
    ensures
        match r {
            Ok(v) => spec_options(region@, o) == Ok::<Seq<OptionModel>, ErrorKind>(models(v@)),
            Err(e) => spec_options(region@, o) == Err::<Seq<OptionModel>, ErrorKind>(e),
        },
{
    let mut out: Vec<OptionRecord<'a>> = Vec::new();
    let mut pos: usize = 0;
    while pos < region.len()
        invariant
            pos <= region@.len(),
            match spec_options_from(region@, o, pos as int) {
                Ok(rest) => spec_options(region@, o) == Ok::<Seq<OptionModel>, ErrorKind>(
                    models(out@) + rest,
                ),
                Err(e) => spec_options(region@, o) == Err::<Seq<OptionModel>, ErrorKind>(e),
            },
        decreases region@.len() - pos,
    {
        if region.len() - pos < 4 {
            return Err(ErrorKind::Truncated);
        }
        let code = match read_u16(region, o, pos) {
            Ok(v) => v,
            Err(e) => {
                return Err(e);
            },
        };
        let len = match read_u16(region, o, pos + 2) {
            Ok(v) => v,
            Err(e) => {
                return Err(e);
            },
        };
        let vlen: usize = len as usize;
        if vlen > region.len() - (pos + 4) {
            return Err(ErrorKind::InvalidLength);
        }
        let end: usize = pos + 4 + vlen;
        let value = vstd::slice::slice_subrange(region, pos + 4, end);
        let pad: usize = if end % 4 == 0 {
            0
        } else {
            4 - end % 4
        };
        proof {
            assert(end + pad == align4(pos + 4 + len));
        }
        if pad > region.len() - end {
            return Err(ErrorKind::Truncated);
        }
        let next: usize = end + pad;
        let rec = OptionRecord { code, value };
        proof {
            let m = rec.model();
            let prefix = models(out@);
            assert(m == OptionModel {
                code: u16_at(region@, o, pos as int),
                value: region@.subrange(pos as int + 4, pos as int + 4 + len),
            });
            assert(models(out@.push(rec)) =~= prefix + seq![m]);
            if code != 0 {
                match spec_options_from(region@, o, next as int) {
                    Ok(rest) => {
                        assert(spec_options_from(region@, o, pos as int) == Ok::<
                            Seq<OptionModel>,
                            ErrorKind,
                        >(seq![m] + rest));
                        assert(prefix + (seq![m] + rest) =~= (prefix + seq![m]) + rest);
                    },
                    Err(_) => {},
                }
            } else {
                assert(spec_options_from(region@, o, pos as int) == Ok::<
                    Seq<OptionModel>,
                    ErrorKind,
                >(seq![m]));
            }
        }
        out.push(rec);
        if code == 0 {
            return Ok(out);
        }
        pos = next;
    }
    proof {
        assert(models(out@) + Seq::<OptionModel>::empty() =~= models(out@));
    }
    Ok(out)
}

/// A lazy, restartable scan over an options region.
///
/// Each call of [`OptionCursor::next`] yields one record, `None` once
/// iteration has finished, or the error on which the region is
/// rejected at the cursor's position.  The scan is a pure function of
/// the region and the byte order: two cursors made from the same region
/// yield the same sequence, and a fresh cursor always restarts from the
/// beginning.
pub struct OptionCursor<'a> {
    region: &'a [u8],
    order: ByteOrder,
    pos: usize,
    done: bool,
}

impl<'a> OptionCursor<'a> {
    /// The cursor stands inside its region.
    pub closed spec fn wf(self) -> bool {
        self.pos <= self.region@.len()
    }

    /// The decoding of everything the cursor has not yet yielded.
    pub closed spec fn remaining(self) -> Result<Seq<OptionModel>, ErrorKind> {
        if self.done {
            Ok(Seq::empty())
        } else {
            spec_options_from(self.region@, self.order, self.pos as int)
        }
    }

    /// Starts a scan at the beginning of `region` under order `order`.
    pub fn new(region: &'a [u8], order: ByteOrder) -> (c: Self)
        ensures
            c.wf(),
            c.remaining() == spec_options(region@, order),
    {
        OptionCursor { region, order, pos: 0, done: false }
    }

    /// Yields the record at the cursor and advances past its padding,
    /// or reports that iteration has finished or that the region is
    /// rejected here.
    ///
    /// A yielded record is the head of what remained; what remains
    /// afterwards is the rest, including any error that a later record
    /// will surface.  After `Ok(None)` nothing remained, and on an
    /// error the cursor does not move.
    pub fn next(&mut self) -> (r: Result<Option<OptionRecord<'a>>, ErrorKind>)
        requires
            old(self).wf(),
        ensures
            final(self).wf(),
            match r {
                Ok(opt) => match opt {
                    Some(rec) => match final(self).remaining() {
                        Ok(rest) => old(self).remaining() == Ok::<Seq<OptionModel>, ErrorKind>(
                            seq![rec.model()] + rest,
                        ),
                        Err(e) => old(self).remaining() == Err::<Seq<OptionModel>, ErrorKind>(e),
                    },
                    None => old(self).remaining() == Ok::<Seq<OptionModel>, ErrorKind>(Seq::empty())
                        && final(self).remaining() == old(self).remaining(),
                },
                Err(e) => old(self).remaining() == Err::<Seq<OptionModel>, ErrorKind>(e)
                    && *final(self) == *old(self),
            },
    {
        if self.done {
            return Ok(None);
        }
        let region = self.region;
        let o = self.order;
        let pos = self.pos;
        if pos >= region.len() {
            self.done = true;
            return Ok(None);
        }
        if region.len() - pos < 4 {
            return Err(ErrorKind::Truncated);
        }
        let code = match read_u16(region, o, pos) {
            Ok(v) => v,
            Err(e) => {
                return Err(e);
            },
        };
        let len = match read_u16(region, o, pos + 2) {
            Ok(v) => v,
            Err(e) => {
                return Err(e);
            },
        };
        let vlen: usize = len as usize;
        if vlen > region.len() - (pos + 4) {
            return Err(ErrorKind::InvalidLength);
        }
        let end: usize = pos + 4 + vlen;
        let value = vstd::slice::slice_subrange(region, pos + 4, end);
        let pad: usize = if end % 4 == 0 {
            0
        } else {
            4 - end % 4
        };
        proof {
            assert(end + pad == align4(pos + 4 + len));
        }
        if pad > region.len() - end {
            return Err(ErrorKind::Truncated);
        }
        let next_pos: usize = end + pad;
        let rec = OptionRecord { code, value };
        proof {
            let m = rec.model();
            assert(m == OptionModel {
                code: u16_at(region@, o, pos as int),
                value: region@.subrange(pos as int + 4, pos as int + 4 + len),
            });
            assert(spec_step(region@, o, pos as int) == Ok::<
                Option<(OptionModel, int)>,
                ErrorKind,
            >(Some((m, next_pos as int))));
            if code == 0 {
                assert(seq![m] + Seq::<OptionModel>::empty() =~= seq![m]);
            }
        }
        if code == 0 {
            self.done = true;
        } else {
            self.pos = next_pos;
        }
        Ok(Some(rec))
    }
}

/// An empty options region encodes the empty option sequence.
pub proof fn lemma_options_empty_region(region: Seq<u8>, o: ByteOrder)
    requires
        region.len() == 0,
    ensures
        spec_options(region, o) == Ok::<Seq<OptionModel>, ErrorKind>(Seq::empty()),
{
}

/// A region beginning with a `{code: 0, length: 0}` record encodes
/// exactly the terminator option, whatever bytes follow it.
pub proof fn lemma_options_terminator(region: Seq<u8>, o: ByteOrder)
    requires
        region.len() >= 4,
        u16_at(region, o, 0) == 0,
        u16_at(region, o, 2) == 0,
    ensures
        spec_options(region, o) == Ok::<Seq<OptionModel>, ErrorKind>(
            seq![OptionModel { code: 0, value: Seq::empty() }],
        ),
{
    assert(region.subrange(4, 4) =~= Seq::<u8>::empty());
}

} // verus!
