//! The pull parser: the tokenizer, the state machine, and verified
//! position tracking, behind the one call `next_item`.

use vstd::prelude::*;

use crate::events::{Pos, XmlEventV};
use crate::machine::{CoreV, FeedV, ParserCore, State};
use crate::machine::{spec_feed, spec_init_core};
use crate::tokenizer::{
    event_ends, events_done, make_reader, next_xml_event, reader_bytes, reader_offset,
    reader_position, xml_events, ByteReader,
};
use crate::types::{MarketXmlConfig, MarketXmlError, MarketXmlErrorV, ParsedItem, ParsedItemV};

verus! {

/// The line and column that `i` consumed bytes of `s` put the reader at:
/// lines are 1-based and grow at each line feed, the column counts bytes
/// since the last line feed.
pub open spec fn spec_line_col(s: Seq<u8>, i: int) -> (int, int)
    decreases i,
{
    if i <= 0 {
        (1, 0)
    } else {
        let p = spec_line_col(s, i - 1);
        if s[i - 1] == 10 {
            (p.0 + 1, 0)
        } else {
            (p.0, p.1 + 1)
        }
    }
}

/// A byte offset clamped to the document's length.
pub open spec fn clamped(off: u64, len: int) -> int {
    if off as int > len {
        len
    } else {
        off as int
    }
}

/// The byte offset the tokenizer stands at after producing `k` events of a
/// document: zero at the start, then where each event of the stream ends;
/// past the stream it no longer moves.
pub open spec fn stream_offset(input: Seq<u8>, k: int) -> u64
    decreases k,
{
    if k <= 0 {
        0
    } else if k <= xml_events(input).len() {
        event_ends(input)[k - 1]
    } else {
        stream_offset(input, xml_events(input).len() as int)
    }
}

/// The position after `k` events of a document.
pub open spec fn pos_at(input: Seq<u8>, k: int) -> Pos {
    let p = clamped(stream_offset(input, k), input.len() as int);
    Pos { line: spec_line_col(input, p).0 as u64, column: spec_line_col(input, p).1 as u64 }
}

/// What one pull yields: the machine fed with the document's event stream
/// from event `k` on, until it produces a record or fails; the result is
/// the machine afterwards, the next event index, and the record or error.
/// In the terminal state nothing is consumed and the end marker comes
/// back; past the stream's end the tokenizer keeps answering end of
/// stream.
#[verifier::opaque]
pub open spec fn spec_pull(c: CoreV, input: Seq<u8>, k: int) -> (CoreV, int, Result<
    ParsedItemV,
    MarketXmlErrorV,
>)
    decreases xml_events(input).len() - k,
{
    if c.state == State::End {
        (c, k, Ok(ParsedItemV::Eof))
    } else if 0 <= k && k < xml_events(input).len() {
        let step = spec_feed(c, xml_events(input)[k], pos_at(input, k), pos_at(input, k + 1));
        match step.1 {
            FeedV::More => spec_pull(step.0, input, k + 1),
            FeedV::Item(item) => (step.0, k + 1, Ok(item)),
            FeedV::Fail(e) => (step.0, k + 1, Err(e)),
        }
    } else {
        let step = spec_feed(c, XmlEventV::StreamEnd, pos_at(input, k), pos_at(input, k));
        match step.1 {
            FeedV::More => (step.0, k + 1, Ok(ParsedItemV::Eof)),
            FeedV::Item(item) => (step.0, k + 1, Ok(item)),
            FeedV::Fail(e) => (step.0, k + 1, Err(e)),
        }
    }
}

/// The streaming parser: owns the tokenizer over an in-memory copy of the
/// document, the state machine, and the current position.
pub struct MarketXmlParser {
    pub reader: ByteReader,
    pub input: Vec<u8>,
    pub pos: usize,
    pub line: u64,
    pub col: u64,
    pub core: ParserCore,
    pub config: MarketXmlConfig,
}

impl MarketXmlParser {
    /// The position fields agree with the consumed prefix of the input,
    /// and the tokenizer stays within it.
    pub open spec fn pos_wf(&self) -> bool {
        &&& self.pos <= self.input@.len()
        &&& self.input@.len() < usize::MAX
        &&& self.line as int == spec_line_col(self.input@, self.pos as int).0
        &&& self.col as int == spec_line_col(self.input@, self.pos as int).1
        &&& self.line as int <= self.pos + 1
        &&& self.col as int <= self.pos
        &&& reader_bytes(self.reader) == self.input@
        &&& self.pos as u64 <= reader_offset(self.reader)
        &&& reader_offset(self.reader) as int <= self.input@.len()
    }

    /// The parser's invariant: position tracking is sound, and the
    /// tokenizer stands exactly where the document's event stream puts it
    /// after the events consumed so far.
    pub open spec fn wf(&self) -> bool {
        &&& self.pos_wf()
        &&& reader_offset(self.reader) == stream_offset(
            self.input@,
            events_done(self.reader) as int,
        )
        &&& self.pos as int == clamped(reader_offset(self.reader), self.input@.len() as int)
    }

    /// A parser over a document given as bytes, standing at its start.
    pub fn new(config: MarketXmlConfig, input: Vec<u8>) -> (r: MarketXmlParser)
        requires
            input@.len() < usize::MAX,
        ensures
            r.wf(),
            r.core.deep_view() == spec_init_core(),
            r.input@ == input@,
            r.pos == 0,
    {
        let mut copy: Vec<u8> = Vec::new();
        let n = input.len();
        let mut i: usize = 0;
        while i < n
            invariant
                i <= n,
                n == input@.len(),
                copy@ =~= input@.take(i as int),
            decreases n - i,
        {
            copy.push(input[i]);
            proof {
                assert(copy@ =~= input@.take(i + 1));
            }
            i = i + 1;
        }
        proof {
            assert(input@.take(n as int) =~= input@);
        }
        let reader = make_reader(copy);
        MarketXmlParser {
            reader,
            input,
            pos: 0,
            line: 1,
            col: 0,
            core: ParserCore::new(),
            config,
        }
    }

    /// The line the tokenizer stands at.
    pub fn current_line(&self) -> (r: u64)
        ensures
            r == self.line,
            self.wf() ==> r as int == spec_line_col(self.input@, self.pos as int).0,
    {
        self.line
    }

    /// The column the tokenizer stands at.
    pub fn current_column(&self) -> (r: u64)
        ensures
            r == self.col,
            self.wf() ==> r as int == spec_line_col(self.input@, self.pos as int).1,
    {
        self.col
    }

    /// How many bytes of the input have been consumed; drives progress
    /// reporting.
    pub fn buffer_position(&self) -> (r: usize)
        ensures
            r == self.pos,
    {
        self.pos
    }

    /// Advances the position fields over the bytes the tokenizer consumed
    /// for its last event.
    #[verifier::loop_isolation(false)]
    fn sync_position(&mut self)
        requires
            old(self).pos_wf(),
        ensures
            final(self).pos_wf(),
            final(self).input == old(self).input,
            final(self).core == old(self).core,
            final(self).config == old(self).config,
            final(self).reader == old(self).reader,
            final(self).pos >= old(self).pos,
            final(self).pos as u64 == reader_offset(final(self).reader),
    {
        let bp = reader_position(&self.reader);
        let len = self.input.len();
        let target: usize = if bp > len as u64 {
            len
        } else {
            bp as usize
        };
        let mut i = self.pos;
        proof {
            assert(target as u64 == bp);
        }
        while i < target
            invariant
                old(self).pos <= i <= self.input@.len(),
                i <= target,
                target as u64 == reader_offset(self.reader),
                self.line as int == spec_line_col(self.input@, i as int).0,
                self.col as int == spec_line_col(self.input@, i as int).1,
                self.line as int <= i + 1,
                self.col as int <= i,
                self.input == old(self).input,
                self.core == old(self).core,
                self.config == old(self).config,
                self.reader == old(self).reader,
                self.pos == old(self).pos,
            decreases target - i,
        {
            if self.input[i] == 10 {
                self.line = self.line + 1;
                self.col = 0;
            } else {
                self.col = self.col + 1;
            }
            i = i + 1;
        }
        self.pos = i;
    }

    /// Produces the next completed record: an offer, the catalog header,
    /// or the end-of-stream marker, which every later call keeps
    /// returning. The result is exactly what feeding the state machine
    /// with the document's event stream from the current event on yields
    /// ([`spec_pull`]).
    #[verifier::loop_isolation(false)]
    #[verifier::rlimit(90)]
    pub fn next_item(&mut self) -> (r: Result<ParsedItem, MarketXmlError>)
        requires
            old(self).wf(),
        ensures
            final(self).wf(),
            final(self).input == old(self).input,
            final(self).config == old(self).config,
            final(self).pos >= old(self).pos,
            old(self).core.state == State::End ==> r == Ok::<ParsedItem, MarketXmlError>(
                ParsedItem::Eof,
            ) && *final(self) == *old(self),
            r matches Ok(item) ==> (item is Eof ==> final(self).core.state == State::End),
            ({
                let (c2, k2, out) = spec_pull(
                    old(self).core.deep_view(),
                    old(self).input@,
                    events_done(old(self).reader) as int,
                );
                &&& final(self).core.deep_view() == c2
                &&& events_done(final(self).reader) as int == k2
                &&& (match r {
                    Ok(item) => (out matches Ok(iv) && item.deep_view() == iv),
                    Err(e) => (out matches Err(ev2) && e.deep_view() == ev2),
                })
            }),
    {
        loop
            invariant
                self.wf(),
                self.input == old(self).input,
                self.config == old(self).config,
                self.core.state == old(self).core.state || !(old(self).core.state is End),
                old(self).core.state is End ==> *self == *old(self),
                self.pos >= old(self).pos,
                spec_pull(
                    old(self).core.deep_view(),
                    old(self).input@,
                    events_done(old(self).reader) as int,
                ) == spec_pull(
                    self.core.deep_view(),
                    self.input@,
                    events_done(self.reader) as int,
                ),
            decreases self.input@.len() - self.pos,
        {
            if self.core.state == State::End {
                proof {
                    assert(spec_pull(
                        self.core.deep_view(),
                        self.input@,
                        events_done(self.reader) as int,
                    ) == (
                        self.core.deep_view(),
                        events_done(self.reader) as int,
                        Ok::<ParsedItemV, MarketXmlErrorV>(ParsedItemV::Eof),
                    )) by {
                        reveal(spec_pull);
                    };
                }
                return Ok(ParsedItem::Eof);
            }
            let ghost input = self.input@;
            let ghost k = events_done(self.reader) as int;
            let ghost c_before = self.core.deep_view();
            let pb = Pos { line: self.line, column: self.col };
            proof {
                assert(pb == pos_at(input, k));
            }
            let ev = next_xml_event(&mut self.reader);
            self.sync_position();
            let pa = Pos { line: self.line, column: self.col };
            proof {
                if k < xml_events(input).len() {
                    assert(stream_offset(input, k + 1) == event_ends(input)[k]);
                    assert(pa == pos_at(input, k + 1));
                    assert(ev.deep_view() == xml_events(input)[k]);
                } else {
                    assert(ev is StreamEnd);
                    assert(pa == pos_at(input, k));
                }
            }
            let r = self.core.feed(ev, pb, pa);
            proof {
                let step = spec_feed(c_before, ev.deep_view(), pb, pa);
                assert(spec_pull(c_before, input, k) == (match step.1 {
                    FeedV::More => spec_pull(step.0, input, k + 1),
                    FeedV::Item(item) => (step.0, k + 1, Ok::<ParsedItemV, MarketXmlErrorV>(item)),
                    FeedV::Fail(e) => (step.0, k + 1, Err::<ParsedItemV, MarketXmlErrorV>(e)),
                })) by {
                    reveal(spec_pull);
                };
            }
            match r {
                Ok(None) => {
                },
                Ok(Some(item)) => {
                    proof {
                        if item.deep_view() is Eof {
                            assert(self.core.state == State::End);
                        }
                    }
                    return Ok(item);
                },
                Err(e) => {
                    return Err(e);
                },
            }
        }
    }
}

} // verus!
