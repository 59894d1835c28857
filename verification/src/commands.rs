//! The command layer: CLI tokens become a typed command, numeric
//! arguments are parsed, and colour arguments become concrete
//! colours, with a sentinel red and a failure status when they do
//! not resolve.

use vstd::prelude::*;
use vstd::string::StringExecFns;

use crate::text::lower_eq;
use crate::text::parse_dec_bounded;
use crate::text::spec_dec_parses;
use crate::text::spec_dec_value;
use crate::text::spec_join_spaces;
use crate::text::spec_lower;
use crate::x11_colours::get_x11_colour;
use crate::x11_colours::get_x11_colours;
use crate::x11_colours::resolution_ok;
use crate::x11_colours::single_resolves;
use crate::x11_colours::spec_colour_def;
use crate::x11_colours::spec_matching;
use crate::x11_colours::spec_greedy;
use crate::x11_colours::spec_padded;
use crate::x11_colours::ColourTable;
use crate::x11_colours::DEFAULT_WHITE;

verus! {

/// The colour sent in place of one that did not resolve: a sentinel
/// red, so the keyboard still shows something and the failure is
/// visible.
pub const RED: u32 = 0xff1010;

/// Outcome of one command. `SuccessNoSave` marks informational
/// commands that succeed but should not be persisted as the last
/// good command.
#[derive(PartialEq, Eq, Structural, Clone, Copy, Debug)]
pub enum Status {
    Success,
    Failure,
    SuccessNoSave,
}

/// Whether a status counts as a success towards the process exit
/// code.
pub trait Successful {
    spec fn spec_successful(&self) -> bool;

    fn successful(&self) -> (r: bool)
        ensures
            r == self.spec_successful(),
    ;
}

impl Successful for Status {
    open spec fn spec_successful(&self) -> bool {
        *self == Status::Success || *self == Status::SuccessNoSave
    }

    fn successful(&self) -> (r: bool) {
        Status::Success == *self || Status::SuccessNoSave == *self
    }
}

/// A parsed command line: the sub-command with its remaining
/// arguments, or `Unknown` with everything that was given.
#[derive(Debug)]
pub enum Command {
    Colour(Vec<String>),
    Region(Vec<String>),
    Regions(Vec<String>),
    Breathe(Vec<String>),
    Cycle(Vec<String>),
    List(Vec<String>),
    Info,
    Saved,
    Help(Vec<String>),
    Unknown(Vec<String>),
}

impl Command {
    /// Whether the command carries any argument tokens.
    pub open spec fn spec_has_args(&self) -> bool {
        match self {
            Command::Colour(a) => a.deep_view().len() > 0,
            Command::Region(a) => a.deep_view().len() > 0,
            Command::Regions(a) => a.deep_view().len() > 0,
            Command::Breathe(a) => a.deep_view().len() > 0,
            Command::Cycle(a) => a.deep_view().len() > 0,
            Command::List(a) => a.deep_view().len() > 0,
            Command::Info => false,
            Command::Saved => false,
            Command::Help(a) => a.deep_view().len() > 0,
            Command::Unknown(a) => a.deep_view().len() > 0,
        }
    }

    /// Whether the command carries any argument tokens.
    pub fn has_args(&self) -> (r: bool)
        ensures
            r == self.spec_has_args(),
    {
        match self {
            Command::Colour(a) => a.len() > 0,
            Command::Region(a) => a.len() > 0,
            Command::Regions(a) => a.len() > 0,
            Command::Breathe(a) => a.len() > 0,
            Command::Cycle(a) => a.len() > 0,
            Command::List(a) => a.len() > 0,
            Command::Info => false,
            Command::Saved => false,
            Command::Help(a) => a.len() > 0,
            Command::Unknown(a) => a.len() > 0,
        }
    }

    /// The command written back out: its keyword, a space, and its
    /// arguments joined with spaces; `info` and `saved` stand alone.
    pub open spec fn spec_display(&self) -> Seq<char> {
        match self {
            Command::Colour(a) => "colour "@ + spec_join_spaces(a.deep_view()),
            Command::Region(a) => "region "@ + spec_join_spaces(a.deep_view()),
            Command::Regions(a) => "regions "@ + spec_join_spaces(a.deep_view()),
            Command::Breathe(a) => "breathe "@ + spec_join_spaces(a.deep_view()),
            Command::Cycle(a) => "cycle "@ + spec_join_spaces(a.deep_view()),
            Command::List(a) => "list "@ + spec_join_spaces(a.deep_view()),
            Command::Info => "info"@,
            Command::Saved => "saved"@,
            Command::Help(a) => "help "@ + spec_join_spaces(a.deep_view()),
            Command::Unknown(a) => "unknown "@ + spec_join_spaces(a.deep_view()),
        }
    }

    /// Write the command back out as one line of text.
    pub fn display_string(&self) -> (r: String)
        ensures
            r@ == self.spec_display(),
    {
        match self {
            Command::Colour(a) => {
                let mut s = String::from_str("colour ");
                s.append(crate::text::join_spaces(a.as_slice()).as_str());
                s
            },
            Command::Region(a) => {
                let mut s = String::from_str("region ");
                s.append(crate::text::join_spaces(a.as_slice()).as_str());
                s
            },
            Command::Regions(a) => {
                let mut s = String::from_str("regions ");
                s.append(crate::text::join_spaces(a.as_slice()).as_str());
                s
            },
            Command::Breathe(a) => {
                let mut s = String::from_str("breathe ");
                s.append(crate::text::join_spaces(a.as_slice()).as_str());
                s
            },
            Command::Cycle(a) => {
                let mut s = String::from_str("cycle ");
                s.append(crate::text::join_spaces(a.as_slice()).as_str());
                s
            },
            Command::List(a) => {
                let mut s = String::from_str("list ");
                s.append(crate::text::join_spaces(a.as_slice()).as_str());
                s
            },
            Command::Info => String::from_str("info"),
            Command::Saved => String::from_str("saved"),
            Command::Help(a) => {
                let mut s = String::from_str("help ");
                s.append(crate::text::join_spaces(a.as_slice()).as_str());
                s
            },
            Command::Unknown(a) => {
                let mut s = String::from_str("unknown ");
                s.append(crate::text::join_spaces(a.as_slice()).as_str());
                s
            },
        }
    }
}

/// Copy the argument strings from position `from` on.
fn clone_strings(args: &[String], from: usize) -> (r: Vec<String>)
    requires
        from <= args@.len(),
    ensures
        r.deep_view() == args.deep_view().skip(from as int),
{
    let mut out: Vec<String> = Vec::new();
    let mut k: usize = from;
    while k < args.len()
        invariant
            from <= k <= args@.len(),
            args.deep_view().len() == args@.len(),
            out@.len() == k - from,
            forall|i: int|
                0 <= i < out@.len() ==> out.deep_view()[i] == args.deep_view()[from + i],
        decreases args@.len() - k,
    {
        let s = vstd::slice::slice_index_get(args, k);
        let ghost old_dv = out.deep_view();
        out.push(s.clone());
        proof {
            assert(out.deep_view() =~= old_dv.push(args.deep_view()[k as int]));
        }
        k = k + 1;
    }
    proof {
        assert(out.deep_view() =~= args.deep_view().skip(from as int));
    }
    out
}

/// The lowercased first token, which selects the sub-command.
pub open spec fn spec_keyword(a: Seq<Seq<char>>) -> Seq<char> {
    if a.len() == 0 {
        Seq::empty()
    } else {
        spec_lower(a[0])
    }
}

/// Map a token list to a command: the first token, lowercased,
/// selects the sub-command (full word or abbreviation) and the rest
/// become its arguments; anything else gives `Unknown` with the
/// whole list.
pub fn get_command(args: &[String]) -> (r: Command)
    ensures
        ({
            let a = args.deep_view();
            let kw = spec_keyword(a);
            let rest = a.skip(if a.len() == 0 {
                0int
            } else {
                1int
            });
            match r {
                Command::Colour(v) => (kw == "colour"@ || kw == "c"@) && v.deep_view() == rest,
                Command::Region(v) => (kw == "region"@ || kw == "r"@) && v.deep_view() == rest,
                Command::Regions(v) => (kw == "regions"@ || kw == "rs"@) && v.deep_view() == rest,
                Command::Breathe(v) => (kw == "breathe"@ || kw == "b"@) && v.deep_view() == rest,
                Command::Cycle(v) => (kw == "cycle"@ || kw == "cy"@) && v.deep_view() == rest,
                Command::List(v) => (kw == "list"@ || kw == "l"@) && v.deep_view() == rest,
                Command::Info => kw == "info"@ || kw == "i"@,
                Command::Saved => kw == "saved"@ || kw == "s"@,
                Command::Help(v) => (kw == "help"@ || kw == "h"@ || kw == "?"@) && v.deep_view()
                    == rest,
                Command::Unknown(v) => (a.len() == 0 || !(kw == "colour"@ || kw == "c"@ || kw
                    == "region"@ || kw == "r"@ || kw == "regions"@ || kw == "rs"@ || kw
                    == "breathe"@ || kw == "b"@ || kw == "cycle"@ || kw == "cy"@ || kw == "list"@
                    || kw == "l"@ || kw == "info"@ || kw == "i"@ || kw == "saved"@ || kw == "s"@
                    || kw == "help"@ || kw == "h"@ || kw == "?"@)) && v.deep_view() == a,
            }
        }),
{
    if args.len() == 0 {
        let all = clone_strings(args, 0);
        proof {
            assert(args.deep_view().skip(0) =~= args.deep_view());
        }
        return Command::Unknown(all);
    }
    let c0 = vstd::slice::slice_index_get(args, 0);
    if lower_eq(c0, "colour") || lower_eq(c0, "c") {
        Command::Colour(clone_strings(args, 1))
    } else if lower_eq(c0, "region") || lower_eq(c0, "r") {
        Command::Region(clone_strings(args, 1))
    } else if lower_eq(c0, "regions") || lower_eq(c0, "rs") {
        Command::Regions(clone_strings(args, 1))
    } else if lower_eq(c0, "breathe") || lower_eq(c0, "b") {
        Command::Breathe(clone_strings(args, 1))
    } else if lower_eq(c0, "cycle") || lower_eq(c0, "cy") {
        Command::Cycle(clone_strings(args, 1))
    } else if lower_eq(c0, "list") || lower_eq(c0, "l") {
        Command::List(clone_strings(args, 1))
    } else if lower_eq(c0, "info") || lower_eq(c0, "i") {
        Command::Info
    } else if lower_eq(c0, "saved") || lower_eq(c0, "s") {
        Command::Saved
    } else if lower_eq(c0, "help") || lower_eq(c0, "h") || lower_eq(c0, "?") {
        Command::Help(clone_strings(args, 1))
    } else {
        let all = clone_strings(args, 0);
        proof {
            assert(args.deep_view().skip(0) =~= args.deep_view());
        }
        Command::Unknown(all)
    }
}

/// Parse a decimal region argument: digits only, at most 255.
pub fn parse_u8_dec(s: &str) -> (r: Option<u8>)
    ensures
        match r {
            Some(v) => spec_dec_parses(s@, 255) && v == spec_dec_value(s@),
            None => !spec_dec_parses(s@, 255),
        },
{
    match parse_dec_bounded(s, 255) {
        Some(v) => Some(v as u8),
        None => None,
    }
}

/// Parse a decimal speed argument: digits only, at most 65535.
pub fn parse_u16_dec(s: &str) -> (r: Option<u16>)
    ensures
        match r {
            Some(v) => spec_dec_parses(s@, 65535) && v == spec_dec_value(s@),
            None => !spec_dec_parses(s@, 65535),
        },
{
    match parse_dec_bounded(s, 65535) {
        Some(v) => Some(v as u16),
        None => None,
    }
}

/// Gather what a `list` command prints: the table entries whose
/// name contains the lowercased first argument, or every entry when
/// there is none; an informational success when anything matched,
/// and a failure otherwise.
pub fn list_colours(table: &ColourTable, args: &[String]) -> (r: (Vec<(String, u32)>, Status))
    ensures
        ({
            let a = args.deep_view();
            let t = if a.len() == 0 {
                Seq::<char>::empty()
            } else {
                spec_lower(a[0])
            };
            &&& r.0.deep_view() == spec_matching(table@, t)
            &&& r.1 == (if r.0@.len() > 0 {
                Status::SuccessNoSave
            } else {
                Status::Failure
            })
        }),
{
    let matched = if args.len() == 0 {
        proof {
            reveal_strlit("");
            assert(""@ =~= Seq::<char>::empty());
            assert(spec_lower(""@) =~= Seq::<char>::empty());
        }
        table.matching_entries("")
    } else {
        table.matching_entries(vstd::slice::slice_index_get(args, 0).as_str())
    };
    let status = if matched.len() > 0 {
        Status::SuccessNoSave
    } else {
        Status::Failure
    };
    (matched, status)
}

/// Resolve colour arguments to one colour, or fall back to the
/// sentinel red with a failure status.
pub fn get_colour_or_red(table: &ColourTable, args: &[String]) -> (r: (u32, Status))
    ensures
        ({
            let a = args.deep_view();
            &&& r.1 == Status::Success || r.1 == Status::Failure
            &&& r.1 == Status::Failure ==> r.0 == RED
            &&& a.len() == 0 ==> r == (DEFAULT_WHITE, Status::Success)
            &&& a.len() == 1 ==> (if single_resolves(table@, a[0]) {
                r.1 == Status::Success && resolution_ok(table@, a[0], r.0)
            } else {
                r == (RED, Status::Failure)
            })
            &&& 2 <= a.len() <= 3 ==> (match spec_colour_def(table@, spec_join_spaces(a)) {
                Some(v) => r == (v, Status::Success),
                None => r == (RED, Status::Failure),
            })
            &&& a.len() >= 4 ==> r == (RED, Status::Failure)
        }),
{
    match get_x11_colour(table, args) {
        Some(col) => (col, Status::Success),
        None => (RED, Status::Failure),
    }
}

/// Resolve colour arguments to exactly `num` colours, or fall back
/// to `num` copies of the sentinel red with a failure status.
pub fn get_colours_or_red(table: &ColourTable, args: &[String], num: u8) -> (r: (Vec<u32>, Status))
    ensures
        ({
            let toks = args.deep_view();
            let segs = spec_greedy(table@, toks, Seq::empty(), num as nat);
            &&& r.0@.len() == num as nat
            &&& r.1 == Status::Success || r.1 == Status::Failure
            &&& toks.len() == 0 ==> (r.1 == Status::Success && forall|i: int|
                0 <= i < num as int ==> r.0@[i] == DEFAULT_WHITE)
            &&& toks.len() > 0 && segs.len() == 0 ==> (r.1 == Status::Failure && forall|i: int|
                0 <= i < num as int ==> r.0@[i] == RED)
            &&& toks.len() > 0 && segs.len() > 0 ==> (r.1 == Status::Success && forall|i: int|
                0 <= i < num as int ==> #[trigger] resolution_ok(
                    table@,
                    spec_padded(segs, i),
                    r.0@[i],
                ))
        }),
{
    match get_x11_colours(table, args, num) {
        Some(cols) => (cols, Status::Success),
        None => {
            let mut reds: Vec<u32> = Vec::new();
            let mut k: usize = 0;
            while k < num as usize
                invariant
                    0 <= k <= num as usize,
                    reds@.len() == k,
                    forall|i: int| 0 <= i < k ==> reds@[i] == RED,
                decreases num as usize - k,
            {
                reds.push(RED);
                k = k + 1;
            }
            (reds, Status::Failure)
        },
    }
}

} // verus!
