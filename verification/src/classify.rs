//! Reading a known cause out of the text of a server's negative reply.
//!
//! The lines of the reply are joined by `"; "` and searched for a fixed list
//! of patterns, without regard to the case of ASCII letters. The patterns are
//! tried in order and the first that occurs decides the cause; where none
//! occurs the reply has no known cause.

use vstd::prelude::*;
use vstd::string::StringExecFns;

use crate::text::{chars_of, find, join, joined, lower, occurs_in, to_lower};

verus! {

/// A known reason for which a server turned the dialogue down.
#[derive(Debug, Clone, Copy, PartialEq, Eq, Structural)]
pub enum SmtpErrorDesc {
    /// The sending IP address is on a blocklist.
    IpBlacklisted,
    /// The server wants the sending IP address to resolve back to a
    /// hostname.
    NeedsRDNS,
}

impl SmtpErrorDesc {
    /// The name under which the cause appears in a serialized result.
    pub open spec fn spec_name(self) -> Seq<char> {
        match self {
            SmtpErrorDesc::IpBlacklisted => "IpBlacklisted"@,
            SmtpErrorDesc::NeedsRDNS => "NeedsRDNS"@,
        }
    }

    /// The name under which the cause appears in a serialized result.
    pub fn name(&self) -> (r: String)
        ensures
            r@ == self.spec_name(),
    {
        match self {
            SmtpErrorDesc::IpBlacklisted => String::from_str("IpBlacklisted"),
            SmtpErrorDesc::NeedsRDNS => String::from_str("NeedsRDNS"),
        }
    }
}

/// The number of patterns.
pub const PATTERNS: usize = 9;

/// The text of pattern `i`, in small letters.
pub open spec fn pattern_text(i: int) -> Seq<char> {
    if i == 0 {
        "blacklist"@
    } else if i == 1 {
        "black list"@
    } else if i == 2 {
        "blocklist"@
    } else if i == 3 {
        "block list"@
    } else if i == 4 {
        "spamhaus"@
    } else if i == 5 {
        "cannot find your reverse hostname"@
    } else if i == 6 {
        "cannot find your hostname"@
    } else if i == 7 {
        "reverse dns"@
    } else {
        "ptr record"@
    }
}

/// The cause that pattern `i` stands for.
pub open spec fn pattern_cause(i: int) -> SmtpErrorDesc {
    if i <= 4 {
        SmtpErrorDesc::IpBlacklisted
    } else {
        SmtpErrorDesc::NeedsRDNS
    }
}

/// Pattern `i` with its cause.
fn pattern(i: usize) -> (r: (&'static str, SmtpErrorDesc))
    requires
        i < PATTERNS,
    ensures
        r.0@ == pattern_text(i as int),
        r.1 == pattern_cause(i as int),
{
    match i {
        0 => ("blacklist", SmtpErrorDesc::IpBlacklisted),
        1 => ("black list", SmtpErrorDesc::IpBlacklisted),
        2 => ("blocklist", SmtpErrorDesc::IpBlacklisted),
        3 => ("block list", SmtpErrorDesc::IpBlacklisted),
        4 => ("spamhaus", SmtpErrorDesc::IpBlacklisted),
        5 => ("cannot find your reverse hostname", SmtpErrorDesc::NeedsRDNS),
        6 => ("cannot find your hostname", SmtpErrorDesc::NeedsRDNS),
        7 => ("reverse dns", SmtpErrorDesc::NeedsRDNS),
        _ => ("ptr record", SmtpErrorDesc::NeedsRDNS),
    }
}

/// The text that is searched: the lines joined by `"; "`, in small letters.
pub open spec fn reply_text(lines: Seq<Seq<char>>) -> Seq<char> {
    lower(joined(lines, "; "@))
}

/// Pattern `i` occurs in the text.
pub open spec fn pattern_occurs(text: Seq<char>, i: int) -> bool {
    occurs_in(text, pattern_text(i))
}

/// The cause of the first pattern from `from` on that occurs in the text.
pub open spec fn first_match(text: Seq<char>, from: int) -> Option<SmtpErrorDesc>
    decreases PATTERNS - from,
{
    if from < 0 || from >= PATTERNS {
        None
    } else if pattern_occurs(text, from) {
        Some(pattern_cause(from))
    } else {
        first_match(text, from + 1)
    }
}

/// The known cause of a reply, if it has one.
pub open spec fn spec_classify(lines: Seq<Seq<char>>) -> Option<SmtpErrorDesc> {
    first_match(reply_text(lines), 0)
}

/// The known cause of a reply given by its lines, if it has one.
pub fn classify(lines: &Vec<String>) -> (r: Option<SmtpErrorDesc>)
    ensures
        r == spec_classify(lines.deep_view()),
{
    let text = to_lower(&join(lines, "; "));
    let mut i: usize = 0;
    while i < PATTERNS
        invariant
            i <= PATTERNS,
            text@ == reply_text(lines.deep_view()),
            first_match(text@, 0) == first_match(text@, i as int),
        decreases PATTERNS - i,
    {
        let (p, cause) = pattern(i);
        let needle = chars_of(p);
        if find(&text, &needle) {
            return Some(cause);
        }
        i = i + 1;
    }
    None
}

/// A reply has no known cause exactly when none of the patterns occurs in
/// its text: there is no cause to fall back on.
pub proof fn lemma_no_match_no_cause(lines: Seq<Seq<char>>)
    ensures
        spec_classify(lines) is None <==> forall|i: int|
            0 <= i < PATTERNS ==> !pattern_occurs(reply_text(lines), i),
{
    lemma_first_match(reply_text(lines), 0);
}

/// A reply has the cause `cause` exactly when some pattern of that cause
/// occurs in its text and no earlier pattern does.
pub proof fn lemma_first_pattern_wins(lines: Seq<Seq<char>>, cause: SmtpErrorDesc)
    ensures
        spec_classify(lines) == Some(cause) <==> exists|i: int|
            0 <= i < PATTERNS && #[trigger] pattern_occurs(reply_text(lines), i) && pattern_cause(i)
                == cause && forall|j: int| 0 <= j < i ==> !pattern_occurs(reply_text(lines), j),
{
    lemma_first_match(reply_text(lines), 0);
}

/// What `first_match` finds from `from` on: nothing where no pattern from
/// there on occurs, else the cause of the first that does.
proof fn lemma_first_match(text: Seq<char>, from: int)
    requires
        0 <= from <= PATTERNS,
    ensures
        first_match(text, from) is None <==> forall|i: int|
            from <= i < PATTERNS ==> !pattern_occurs(text, i),
        first_match(text, from) is Some ==> exists|i: int|
            from <= i < PATTERNS && #[trigger] pattern_occurs(text, i) && first_match(text, from)
                == Some(pattern_cause(i)) && forall|j: int| from <= j < i ==> !pattern_occurs(text, j),
    decreases PATTERNS - from,
{
    if from < PATTERNS {
        if pattern_occurs(text, from) {
        } else {
            lemma_first_match(text, from + 1);
        }
    }
}

/// Every pattern is in small letters, so that it can occur in a text that
/// was put in small letters.
pub proof fn lemma_patterns_are_lower(i: int)
    ensures
        lower(pattern_text(i)) == pattern_text(i),
{
    reveal_strlit("blacklist");
    reveal_strlit("black list");
    reveal_strlit("blocklist");
    reveal_strlit("block list");
    reveal_strlit("spamhaus");
    reveal_strlit("cannot find your reverse hostname");
    reveal_strlit("cannot find your hostname");
    reveal_strlit("reverse dns");
    reveal_strlit("ptr record");
    assert(lower(pattern_text(i)) =~= pattern_text(i));
}

/// Two replies whose text is the same, or differs only in the case of ASCII
/// letters, have the same cause.
pub proof fn lemma_case_is_ignored(a: Seq<Seq<char>>, b: Seq<Seq<char>>)
    requires
        lower(joined(a, "; "@)) == lower(joined(b, "; "@)),
    ensures
        spec_classify(a) == spec_classify(b),
{
}

} // verus!
