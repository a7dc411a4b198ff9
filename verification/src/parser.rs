//! Parsing the headers of an image, step by step.
//!
//! Parsing runs through three states: at the start nothing is known; then the
//! DOS header has been read; then the signature that the header points to has
//! been verified. Any step may fail instead, and a failure is final.
//!
//! The machine and characteristics words lie behind the signature, in the
//! COFF header, which is not read here. Whoever reads it hands the two raw
//! words to [`Parser::describe`], which decodes them.

use crate::characteristics::Characteristics;
use crate::cursor::{ByteCursor, CursorView};
use crate::dos::{is_dos_signature, DosHeader, DOS_HEADER_SIZE};
use crate::error::PEError;
use crate::locator::{locate_outcome, locate_pe_signature, PE_SIGNATURE};
use crate::machine::Machine;
use vstd::prelude::*;

verus! {

/// An image whose DOS header has been read and whose PE signature has been
/// verified.
#[derive(Clone, Copy, Debug, PartialEq, Eq)]
pub struct PortableExecutable {
    /// The DOS header as read.
    pub dos_header: DosHeader,
    /// The offset of the PE signature from the start of the file.
    pub pe_offset: u32,
    /// The signature found there.
    pub signature: [u8; 4],
    /// The offset just behind the signature, where the COFF header starts.
    pub coff_offset: u64,
}

impl PortableExecutable {
    /// What holds of every image that parsing accepts.
    pub open spec fn wf(self) -> bool {
        &&& is_dos_signature(self.dos_header.signature@)
        &&& self.pe_offset == self.dos_header.e_lfanew
        &&& self.pe_offset >= DOS_HEADER_SIZE
        &&& self.signature == PE_SIGNATURE
        &&& self.coff_offset == self.pe_offset + 4
    }
}

/// An image with its machine and characteristics decoded.
#[derive(Clone, Copy, Debug, PartialEq, Eq)]
pub struct ParsedHeaderInfo {
    /// The DOS header as read.
    pub dos_header: DosHeader,
    /// The offset of the PE signature from the start of the file.
    pub pe_offset: u32,
    /// The signature found there.
    pub signature: [u8; 4],
    /// The architecture the image is built for.
    pub machine: Machine,
    /// The attributes of the image.
    pub characteristics: Characteristics,
    /// The offset just behind the signature, where the COFF header starts.
    pub coff_offset: u64,
}

/// How far parsing has come.
#[derive(Debug)]
pub enum ParseState {
    /// Nothing has been read.
    Start,
    /// The DOS header has been read.
    DosHeaderRead(DosHeader),
    /// The PE signature has been verified. Parsing has succeeded.
    PeSignatureVerified(PortableExecutable),
    /// Parsing has failed.
    Failed(PEError),
}

impl ParseState {
    /// Whether parsing has ended, in success or in failure.
    pub open spec fn is_terminal(self) -> bool {
        self is PeSignatureVerified || self is Failed
    }

    /// How many steps lead from this state to a terminal one at most.
    pub open spec fn steps_left(self) -> nat {
        match self {
            ParseState::Start => 2,
            ParseState::DosHeaderRead(_) => 1,
            ParseState::PeSignatureVerified(_) => 0,
            ParseState::Failed(_) => 0,
        }
    }

    /// The state that follows this one when the cursor is at `v`.
    pub open spec fn next(self, v: CursorView) -> ParseState {
        match self {
            ParseState::Start => match DosHeader::parse_outcome(v) {
                Ok(dos_header) => ParseState::DosHeaderRead(dos_header),
                Err(e) => ParseState::Failed(e),
            },
            ParseState::DosHeaderRead(dos_header) => match locate_outcome(v, dos_header.e_lfanew) {
                Ok(signature) => ParseState::PeSignatureVerified(
                    PortableExecutable {
                        dos_header,
                        pe_offset: dos_header.e_lfanew,
                        signature,
                        coff_offset: (dos_header.e_lfanew + 4) as u64,
                    },
                ),
                Err(e) => ParseState::Failed(e),
            },
            ParseState::PeSignatureVerified(_) => self,
            ParseState::Failed(_) => self,
        }
    }

    /// Where the cursor stands after the step that leaves this state, if it
    /// stood at `v` before: behind what the step has read, or at `v` if the
    /// step failed or there was none to take.
    pub open spec fn cursor_after(self, v: CursorView) -> CursorView {
        match (self, self.next(v)) {
            (ParseState::Start, ParseState::DosHeaderRead(_)) => v.moved(DOS_HEADER_SIZE as int),
            (ParseState::DosHeaderRead(_), ParseState::PeSignatureVerified(image)) => CursorView {
                source: v.source,
                position: image.coff_offset as nat,
            },
            _ => v,
        }
    }

    /// The terminal state that the steps from this state lead to, with the
    /// cursor at `v`.
    pub open spec fn run(self, v: CursorView) -> ParseState
        decreases self.steps_left(),
    {
        if self.is_terminal() {
            self
        } else {
            self.next(v).run(self.cursor_after(v))
        }
    }

    /// What parsing has come to, once it has ended.
    pub open spec fn outcome(self) -> Option<Result<PortableExecutable, PEError>> {
        match self {
            ParseState::PeSignatureVerified(image) => Some(Ok(image)),
            ParseState::Failed(e) => Some(Err(e)),
            _ => None,
        }
    }

    /// Takes one step: reads the DOS header from `Start`, looks for the PE
    /// signature from `DosHeaderRead`. A terminal state stays as it is.
    pub fn step(self, cur: &mut ByteCursor) -> (next: ParseState)
        ensures
            next == self.next(old(cur)@),
            final(cur)@ == self.cursor_after(old(cur)@),
            next.steps_left() < self.steps_left() || self.is_terminal(),
    {
        match self {
            ParseState::Start => match DosHeader::parse(cur) {
                Ok(dos_header) => ParseState::DosHeaderRead(dos_header),
                Err(e) => ParseState::Failed(e),
            },
            ParseState::DosHeaderRead(dos_header) => match locate_pe_signature(
                cur,
                dos_header.e_lfanew,
            ) {
                Ok(signature) => ParseState::PeSignatureVerified(
                    PortableExecutable {
                        dos_header,
                        pe_offset: dos_header.e_lfanew,
                        signature,
                        coff_offset: dos_header.e_lfanew as u64 + 4,
                    },
                ),
                Err(e) => ParseState::Failed(e),
            },
            ParseState::PeSignatureVerified(image) => ParseState::PeSignatureVerified(image),
            ParseState::Failed(e) => ParseState::Failed(e),
        }
    }
}

/// What parsing the file `bytes` comes to: the first failure met on the way, or
/// the image.
pub open spec fn parse_outcome(bytes: Seq<u8>) -> Result<PortableExecutable, PEError> {
    if bytes.len() < 2 {
        Err(PEError::Truncated)
    } else if !is_dos_signature(bytes.subrange(0, 2)) {
        Err(PEError::InvalidSignature)
    } else if bytes.len() < DOS_HEADER_SIZE {
        Err(PEError::Truncated)
    } else {
        let dos_header = DosHeader::decode(bytes.subrange(0, DOS_HEADER_SIZE as int));
        let pe_offset = dos_header.e_lfanew;
        if pe_offset < DOS_HEADER_SIZE {
            Err(PEError::InvalidHeaderOffset)
        } else if pe_offset + 4 > bytes.len() {
            Err(PEError::Truncated)
        } else if bytes.subrange(pe_offset as int, pe_offset + 4) != PE_SIGNATURE@ {
            Err(PEError::InvalidPeSignature)
        } else {
            Ok(
                PortableExecutable {
                    dos_header,
                    pe_offset,
                    signature: PE_SIGNATURE,
                    coff_offset: (pe_offset + 4) as u64,
                },
            )
        }
    }
}

/// What decoding the two raw words of the COFF header adds to `image`.
pub open spec fn describe_outcome(
    image: PortableExecutable,
    machine: u16,
    characteristics: u16,
) -> Result<ParsedHeaderInfo, PEError> {
    match Machine::decode(machine) {
        Ok(machine) => Ok(
            ParsedHeaderInfo {
                dos_header: image.dos_header,
                pe_offset: image.pe_offset,
                signature: image.signature,
                machine,
                characteristics: Characteristics { bits: characteristics },
                coff_offset: image.coff_offset,
            },
        ),
        Err(e) => Err(e),
    }
}

/// The parser of image headers.
pub struct Parser {}

impl Parser {
    /// Parses the headers of the file `bytes`: reads the DOS header, follows
    /// it to the PE signature and verifies the signature.
    pub fn parse_pe(bytes: &[u8]) -> (res: Result<PortableExecutable, PEError>)
        ensures
            res == parse_outcome(bytes@),
            res matches Ok(image) ==> image.wf(),
    {
        let mut cur: ByteCursor = ByteCursor::new(bytes);
        let mut state: ParseState = ParseState::Start;
        let ghost end = state.run(cur@);
        proof {
            lemma_states_lead_to_parse_outcome(bytes@);
        }
        loop
            invariant
                state.run(cur@) == end,
                end.outcome() == Some(parse_outcome(bytes@)),
            decreases state.steps_left(),
        {
            match state {
                ParseState::PeSignatureVerified(image) => {
                    return Ok(image);
                },
                ParseState::Failed(e) => {
                    return Err(e);
                },
                unfinished => {
                    state = unfinished.step(&mut cur);
                },
            }
        }
    }

    /// Completes the description of `image` with the machine and
    /// characteristics words read from its COFF header. A machine code that
    /// the format does not define is refused.
    pub fn describe(
        image: PortableExecutable,
        machine: u16,
        characteristics: u16,
    ) -> (res: Result<ParsedHeaderInfo, PEError>)
        ensures
            res == describe_outcome(image, machine, characteristics),
    {
        let machine: Machine = Machine::try_from(machine)?;
        Ok(
            ParsedHeaderInfo {
                dos_header: image.dos_header,
                pe_offset: image.pe_offset,
                signature: image.signature,
                machine,
                characteristics: Characteristics::decode(characteristics),
                coff_offset: image.coff_offset,
            },
        )
    }
}

/// Parsing always ends: from every state, wherever the cursor stands, the steps
/// lead to a terminal state.
pub proof fn lemma_run_ends(state: ParseState, v: CursorView)
    ensures
        state.run(v).is_terminal(),
    decreases state.steps_left(),
{
    if !state.is_terminal() {
        lemma_run_ends(state.next(v), state.cursor_after(v));
    }
}

/// The steps from `Start` at the head of a file end in the state that holds
/// what parsing the file comes to.
pub proof fn lemma_states_lead_to_parse_outcome(bytes: Seq<u8>)
    ensures
        ParseState::Start.run(CursorView::start(bytes)).outcome() == Some(parse_outcome(bytes)),
{
    let start = CursorView::start(bytes);
    let first = ParseState::Start.next(start);
    let behind = ParseState::Start.cursor_after(start);
    assert(ParseState::Start.run(start) == first.run(behind));
    assert(first.run(behind) == first.next(behind)) by {
        reveal_with_fuel(ParseState::run, 2);
    }
    if start.has(2) {
        assert(start.window(2) =~= bytes.subrange(0, 2));
    }
    if start.has(DOS_HEADER_SIZE as nat) {
        assert(start.window(DOS_HEADER_SIZE as nat) =~= bytes.subrange(0, DOS_HEADER_SIZE as int));
        let dos_header = DosHeader::decode(bytes.subrange(0, DOS_HEADER_SIZE as int));
        let there = CursorView { source: bytes, position: dos_header.e_lfanew as nat };
        if there.has(4) {
            assert(there.window(4) =~= bytes.subrange(
                dos_header.e_lfanew as int,
                dos_header.e_lfanew + 4,
            ));
        }
    }
}

/// An image that parsing accepts is well formed, lies within the file up to
/// the end of its signature, and has its signature in the file where it says.
pub proof fn lemma_accepted_image_is_wf(bytes: Seq<u8>)
    requires
        parse_outcome(bytes) is Ok,
    ensures
        ({
            let image = parse_outcome(bytes)->Ok_0;
            &&& image.wf()
            &&& image.dos_header == DosHeader::decode(bytes.subrange(0, DOS_HEADER_SIZE as int))
            &&& image.coff_offset <= bytes.len()
            &&& bytes.subrange(image.pe_offset as int, image.coff_offset as int) == PE_SIGNATURE@
        }),
{
    let image = parse_outcome(bytes)->Ok_0;
    assert(bytes.subrange(0, 2) =~= image.dos_header.signature@);
}

/// A file that starts with anything but a DOS signature is refused for that,
/// whatever else it holds and however short it is.
pub proof fn lemma_foreign_dos_signature_is_refused(bytes: Seq<u8>)
    requires
        bytes.len() >= 2,
        !is_dos_signature(bytes.subrange(0, 2)),
    ensures
        parse_outcome(bytes) matches Err(PEError::InvalidSignature),
{
}

/// A file shorter than the DOS header is reported as truncated, unless its
/// first two bytes are there and are no DOS signature.
pub proof fn lemma_short_file_is_truncated(bytes: Seq<u8>)
    requires
        bytes.len() < DOS_HEADER_SIZE,
        bytes.len() < 2 || is_dos_signature(bytes.subrange(0, 2)),
    ensures
        parse_outcome(bytes) matches Err(PEError::Truncated),
{
}

/// A header whose `e_lfanew` points into the DOS header itself is refused,
/// whatever stands at that offset.
pub proof fn lemma_offset_into_header_is_refused(bytes: Seq<u8>)
    requires
        bytes.len() >= DOS_HEADER_SIZE,
        is_dos_signature(bytes.subrange(0, 2)),
        DosHeader::decode(bytes.subrange(0, DOS_HEADER_SIZE as int)).e_lfanew < DOS_HEADER_SIZE,
    ensures
        parse_outcome(bytes) matches Err(PEError::InvalidHeaderOffset),
{
}

/// A file with a sound DOS header that points to four bytes other than the PE
/// signature is refused for those bytes.
pub proof fn lemma_foreign_pe_signature_is_refused(bytes: Seq<u8>)
    requires
        bytes.len() >= DOS_HEADER_SIZE,
        is_dos_signature(bytes.subrange(0, 2)),
        ({
            let at = DosHeader::decode(bytes.subrange(0, DOS_HEADER_SIZE as int)).e_lfanew;
            &&& DOS_HEADER_SIZE <= at
            &&& at + 4 <= bytes.len()
            &&& bytes.subrange(at as int, at + 4) != PE_SIGNATURE@
        }),
    ensures
        parse_outcome(bytes) matches Err(PEError::InvalidPeSignature),
{
}

} // verus!
