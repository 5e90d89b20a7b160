//! Operators of trading-strategy conditions and the one-line strategy listing.

use vstd::prelude::*;
use crate::text::same_text;

verus! {

/// How a condition compares two values.
#[derive(Clone, Copy, Debug, PartialEq, Eq, Structural)]
pub enum ComparisonOperator {
    Equal,
    NotEqual,
    GreaterThan,
    GreaterThanOrEqual,
    LessThan,
    LessThanOrEqual,
    CrossesAbove,
    CrossesBelow,
}

/// The label of a comparison in strategy documents.
pub open spec fn comparison_label(o: ComparisonOperator) -> Seq<char> {
    match o {
        ComparisonOperator::Equal => "="@,
        ComparisonOperator::NotEqual => "!="@,
        ComparisonOperator::GreaterThan => ">"@,
        ComparisonOperator::GreaterThanOrEqual => ">="@,
        ComparisonOperator::LessThan => "<"@,
        ComparisonOperator::LessThanOrEqual => "<="@,
        ComparisonOperator::CrossesAbove => "crosses_above"@,
        ComparisonOperator::CrossesBelow => "crosses_below"@,
    }
}

impl ComparisonOperator {
    /// The label of this comparison in strategy documents.
    pub fn as_str(&self) -> (r: &'static str)
        ensures
            r@ == comparison_label(*self),
    {
        match self {
            ComparisonOperator::Equal => "=",
            ComparisonOperator::NotEqual => "!=",
            ComparisonOperator::GreaterThan => ">",
            ComparisonOperator::GreaterThanOrEqual => ">=",
            ComparisonOperator::LessThan => "<",
            ComparisonOperator::LessThanOrEqual => "<=",
            ComparisonOperator::CrossesAbove => "crosses_above",
            ComparisonOperator::CrossesBelow => "crosses_below",
        }
    }

    /// The comparison with the given label, if any.
    pub fn from_label(s: &str) -> (r: Option<ComparisonOperator>)
        ensures
            r is Some ==> comparison_label(r->Some_0) == s@,
            r is None ==> forall|o: ComparisonOperator| comparison_label(o) != s@,
    {
        if same_text(s, "=") {
            Some(ComparisonOperator::Equal)
        } else if same_text(s, "!=") {
            Some(ComparisonOperator::NotEqual)
        } else if same_text(s, ">") {
            Some(ComparisonOperator::GreaterThan)
        } else if same_text(s, ">=") {
            Some(ComparisonOperator::GreaterThanOrEqual)
        } else if same_text(s, "<") {
            Some(ComparisonOperator::LessThan)
        } else if same_text(s, "<=") {
            Some(ComparisonOperator::LessThanOrEqual)
        } else if same_text(s, "crosses_above") {
            Some(ComparisonOperator::CrossesAbove)
        } else if same_text(s, "crosses_below") {
            Some(ComparisonOperator::CrossesBelow)
        } else {
            None
        }
    }
}

/// How conditions combine.
#[derive(Clone, Copy, Debug, PartialEq, Eq, Structural)]
pub enum LogicalOperator {
    And,
    Or,
}

/// The label of a combinator in strategy documents.
pub open spec fn logical_label(o: LogicalOperator) -> Seq<char> {
    match o {
        LogicalOperator::And => "and"@,
        LogicalOperator::Or => "or"@,
    }
}

impl LogicalOperator {
    /// The label of this combinator in strategy documents.
    pub fn as_str(&self) -> (r: &'static str)
        ensures
            r@ == logical_label(*self),
    {
        match self {
            LogicalOperator::And => "and",
            LogicalOperator::Or => "or",
        }
    }

    /// The combinator with the given label, if any.
    pub fn from_label(s: &str) -> (r: Option<LogicalOperator>)
        ensures
            r is Some ==> logical_label(r->Some_0) == s@,
            r is None ==> s@ != "and"@ && s@ != "or"@,
    {
        if same_text(s, "and") {
            Some(LogicalOperator::And)
        } else if same_text(s, "or") {
            Some(LogicalOperator::Or)
        } else {
            None
        }
    }
}

/// `n` spaces.
pub open spec fn spaces(n: nat) -> Seq<char>
    decreases n,
{
    if n == 0 { Seq::empty() } else { spaces((n - 1) as nat).push(' ') }
}

/// `s` padded on the right with spaces to at least `width` characters.
pub open spec fn padded(s: Seq<char>, width: nat) -> Seq<char> {
    if s.len() >= width { s } else { s + spaces((width - s.len()) as nat) }
}

fn append_padded(out: &mut String, s: &str, width: usize)
    ensures
        final(out)@ == old(out)@ + padded(s@, width as nat),
{
    out.append(s);
    let n = s.unicode_len();
    if n < width {
        let ghost base = out@;
        let mut k: usize = 0;
        while k < width - n
            invariant
                n < width,
                k <= width - n,
                out@ == base + spaces(k as nat),
            decreases width - n - k,
        {
            out.append(" ");
            k = k + 1;
            proof {
                reveal_strlit(" ");
                assert(" "@ =~= seq![' ']);
                assert(spaces(k as nat) == spaces((k - 1) as nat).push(' '));
                assert(out@ =~= base + spaces(k as nat));
            }
        }
        proof {
            assert(base + spaces(k as nat) =~= old(out)@ + (s@ + spaces((width - s@.len()) as nat)));
        }
    } else {
        assert(out@ =~= old(out)@ + padded(s@, width as nat));
    }
}

/// The one-line listing of a strategy: `id | name | version | status`, the
/// id cut to eight characters and the first three columns padded to 8, 30
/// and 10 characters.
pub open spec fn listing_line(id: Seq<char>, name: Seq<char>, version: Seq<char>, enabled: bool) -> Seq<char> {
    let short = if id.len() > 8 { id.subrange(0, 8) } else { id };
    padded(short, 8) + " | "@ + padded(name, 30) + " | "@ + padded(version, 10) + " | "@
        + if enabled { "Enabled"@ } else { "Disabled"@ }
}

/// Formats one strategy for the listing.
pub fn format_strategy_for_display(strategy_id: &str, name: &str, version: &str, enabled: bool) -> (r: String)
    ensures
        r@ == listing_line(strategy_id@, name@, version@, enabled),
{
    let id_short = if strategy_id.unicode_len() > 8 { strategy_id.substring_char(0, 8) } else { strategy_id };
    let mut out = String::new();
    append_padded(&mut out, id_short, 8);
    out.append(" | ");
    append_padded(&mut out, name, 30);
    out.append(" | ");
    append_padded(&mut out, version, 10);
    out.append(" | ");
    out.append(if enabled { "Enabled" } else { "Disabled" });
    proof {
        let short = if strategy_id@.len() > 8 { strategy_id@.subrange(0, 8) } else { strategy_id@ };
        assert(id_short@ == short);
        assert(out@ =~= listing_line(strategy_id@, name@, version@, enabled));
    }
    out
}

} // verus!
