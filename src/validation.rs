//! Collected errors and warnings of a validation pass, and their report.

use vstd::prelude::*;

verus! {

/// The decimal digit character for `d < 10`.
pub open spec fn digit_char(d: nat) -> char {
    if d == 0 { '0' }
    else if d == 1 { '1' }
    else if d == 2 { '2' }
    else if d == 3 { '3' }
    else if d == 4 { '4' }
    else if d == 5 { '5' }
    else if d == 6 { '6' }
    else if d == 7 { '7' }
    else if d == 8 { '8' }
    else { '9' }
}

/// The decimal representation of `n`, without leading zeros.
pub open spec fn decimal_of(n: nat) -> Seq<char>
    decreases n,
{
    if n < 10 {
        seq![digit_char(n)]
    } else {
        decimal_of(n / 10) + seq![digit_char(n % 10)]
    }
}

fn digit_str(d: usize) -> (r: &'static str)
    requires
        d < 10,
    ensures
        r@ == seq![digit_char(d as nat)],
{
    proof {
        reveal_strlit("0");
        reveal_strlit("1");
        reveal_strlit("2");
        reveal_strlit("3");
        reveal_strlit("4");
        reveal_strlit("5");
        reveal_strlit("6");
        reveal_strlit("7");
        reveal_strlit("8");
        reveal_strlit("9");
    }
    let r = if d == 0 { "0" }
    else if d == 1 { "1" }
    else if d == 2 { "2" }
    else if d == 3 { "3" }
    else if d == 4 { "4" }
    else if d == 5 { "5" }
    else if d == 6 { "6" }
    else if d == 7 { "7" }
    else if d == 8 { "8" }
    else { "9" };
    assert(r@ =~= seq![digit_char(d as nat)]);
    r
}

/// The decimal representation of `n`.
pub fn decimal(n: usize) -> (r: String)
    ensures
        r@ == decimal_of(n as nat),
    decreases n,
{
    if n < 10 {
        String::from_str(digit_str(n))
    } else {
        let mut s = decimal(n / 10);
        s.append(digit_str(n % 10));
        s
    }
}

/// `items` joined with `sep` between neighbours.
pub open spec fn joined(items: Seq<String>, sep: Seq<char>) -> Seq<char>
    decreases items.len(),
{
    if items.len() == 0 {
        Seq::empty()
    } else if items.len() == 1 {
        items[0]@
    } else {
        joined(items.drop_last(), sep) + sep + items.last()@
    }
}

/// The numbered lines `  1. a\n  2. b\n ...` of a list of messages.
pub open spec fn numbered_lines(items: Seq<String>) -> Seq<char>
    decreases items.len(),
{
    if items.len() == 0 {
        Seq::empty()
    } else {
        numbered_lines(items.drop_last()) + "  "@ + decimal_of(items.len()) + ". "@ + items.last()@ + "\n"@
    }
}

/// A section of the report: heading, count, then the numbered messages.
pub open spec fn section(heading: Seq<char>, items: Seq<String>) -> Seq<char> {
    heading + decimal_of(items.len()) + "):\n"@ + numbered_lines(items)
}

/// The report text of a validation pass.
pub open spec fn summary_text(errors: Seq<String>, warnings: Seq<String>) -> Seq<char> {
    let e = if errors.len() > 0 { section("Errors ("@, errors) } else { Seq::empty() };
    let w = if warnings.len() > 0 {
        if e.len() > 0 { e + "\n"@ + section("Warnings ("@, warnings) } else { section("Warnings ("@, warnings) }
    } else {
        e
    };
    if w.len() == 0 { "Strategy validation passed without issues."@ } else { w }
}

fn append_numbered(out: &mut String, items: &Vec<String>)
    ensures
        final(out)@ == old(out)@ + numbered_lines(items@),
{
    let ghost start = out@;
    let mut i: usize = 0;
    proof {
        assert(items@.subrange(0, 0).len() == 0);
        assert(start + numbered_lines(items@.subrange(0, 0)) =~= start);
    }
    while i < items.len()
        invariant
            i <= items@.len(),
            out@ == start + numbered_lines(items@.subrange(0, i as int)),
        decreases items@.len() - i,
    {
        proof {
            assert(items@.subrange(0, i + 1).drop_last() =~= items@.subrange(0, i as int));
            assert(items@.subrange(0, i + 1).last() == items@[i as int]);
        }
        out.append("  ");
        let num = decimal(i + 1);
        out.append(num.as_str());
        out.append(". ");
        out.append(items[i].as_str());
        out.append("\n");
        i = i + 1;
        proof {
            let prev = items@.subrange(0, i - 1);
            let cur = items@.subrange(0, i as int);
            assert(cur.len() == i);
            assert(out@ =~= start + numbered_lines(cur));
        }
    }
    proof {
        assert(items@.subrange(0, i as int) =~= items@);
    }
}

/// Errors and warnings collected by a validation pass, in order of discovery.
#[derive(Debug, Default)]
pub struct ValidationResult {
    pub errors: Vec<String>,
    pub warnings: Vec<String>,
}

impl ValidationResult {
    /// A result with nothing recorded.
    pub fn new() -> (r: Self)
        ensures
            r.errors@.len() == 0,
            r.warnings@.len() == 0,
    {
        ValidationResult { errors: Vec::new(), warnings: Vec::new() }
    }

    /// Records an error.
    pub fn add_error(&mut self, message: String)
        ensures
            final(self).errors@ == old(self).errors@.push(message),
            final(self).warnings@ == old(self).warnings@,
    {
        self.errors.push(message);
    }

    /// Records a warning.
    pub fn add_warning(&mut self, message: String)
        ensures
            final(self).warnings@ == old(self).warnings@.push(message),
            final(self).errors@ == old(self).errors@,
    {
        self.warnings.push(message);
    }

    /// Whether any error was recorded.
    pub fn has_errors(&self) -> (r: bool)
        ensures
            r == (self.errors@.len() > 0),
    {
        self.errors.len() > 0
    }

    /// Whether any warning was recorded.
    pub fn has_warnings(&self) -> (r: bool)
        ensures
            r == (self.warnings@.len() > 0),
    {
        self.warnings.len() > 0
    }

    /// `Ok` without errors; otherwise the errors joined by `, ` after a heading.
    pub fn to_result(self) -> (r: Result<(), String>)
        ensures
            self.errors@.len() == 0 ==> r is Ok,
            self.errors@.len() > 0 ==> r is Err && r->Err_0@ == "Strategy validation failed: "@ + joined(self.errors@, ", "@),
    {
        if !self.has_errors() {
            return Ok(());
        }
        let mut msg = String::from_str("Strategy validation failed: ");
        let ghost start = msg@;
        let mut i: usize = 0;
        while i < self.errors.len()
            invariant
                i <= self.errors@.len(),
                msg@ == start + joined(self.errors@.subrange(0, i as int), ", "@),
            decreases self.errors@.len() - i,
        {
            proof {
                assert(self.errors@.subrange(0, i + 1).drop_last() =~= self.errors@.subrange(0, i as int));
            }
            if i > 0 {
                msg.append(", ");
            }
            msg.append(self.errors[i].as_str());
            i = i + 1;
            proof {
                let cur = self.errors@.subrange(0, i as int);
                assert(cur.last() == self.errors@[i - 1]);
                if i == 1 {
                    assert(joined(cur, ", "@) == cur[0]@);
                    assert(msg@ =~= start + joined(cur, ", "@));
                } else {
                    assert(msg@ =~= start + joined(cur, ", "@));
                }
            }
        }
        proof {
            assert(self.errors@.subrange(0, i as int) =~= self.errors@);
        }
        Err(msg)
    }

    /// A human-readable report of the recorded errors and warnings.
    pub fn summary(&self) -> (r: String)
        ensures
            r@ == summary_text(self.errors@, self.warnings@),
    {
        let mut s = String::new();
        if self.has_errors() {
            s.append("Errors (");
            let n = decimal(self.errors.len());
            s.append(n.as_str());
            s.append("):\n");
            append_numbered(&mut s, &self.errors);
            proof {
                assert(s@ =~= section("Errors ("@, self.errors@));
            }
        }
        let ghost e = s@;
        if self.has_warnings() {
            if s.unicode_len() > 0 {
                s.append("\n");
            }
            s.append("Warnings (");
            let n = decimal(self.warnings.len());
            s.append(n.as_str());
            s.append("):\n");
            append_numbered(&mut s, &self.warnings);
            proof {
                if e.len() > 0 {
                    assert(s@ =~= e + "\n"@ + section("Warnings ("@, self.warnings@));
                } else {
                    assert(s@ =~= section("Warnings ("@, self.warnings@));
                }
            }
        }
        if s.unicode_len() == 0 {
            s.append("Strategy validation passed without issues.");
            assert(s@ =~= "Strategy validation passed without issues."@);
        }
        s
    }
}

} // verus!
