//! The two bit-exact text layouts of a diagnostic.
//!
//! The policy layout pinpoints the offending character of a policy-rule line:
//!
//! ```text
//! PolicyError: <message>
//! | <source_line>
//! | <position dots>^
//! Error count: <error_count>
//! ```
//!
//! The generic layout lists the secondary messages:
//!
//! ```text
//! <kind>: <message>
//! Error count: <error_count>
//! Errors: <secondary_messages>
//! ```

use vstd::prelude::*;

use crate::error::DiagnosticView;
use crate::error::ErrorKind;
use crate::error::NmstateError;
use crate::error::texts_of;

verus! {

/// The label each layout prints for a kind: the variant's name.
pub open spec fn kind_label(k: ErrorKind) -> Seq<char> {
    match k {
        ErrorKind::InvalidArgument => "InvalidArgument"@,
        ErrorKind::PluginFailure => "PluginFailure"@,
        ErrorKind::Bug => "Bug"@,
        ErrorKind::VerificationError => "VerificationError"@,
        ErrorKind::NotImplementedError => "NotImplementedError"@,
        ErrorKind::NotSupportedError => "NotSupportedError"@,
        ErrorKind::KernelIntegerRoundedError => "KernelIntegerRoundedError"@,
        ErrorKind::DependencyError => "DependencyError"@,
        ErrorKind::PolicyError => "PolicyError"@,
        ErrorKind::PermissionError => "PermissionError"@,
        ErrorKind::SrIovVfNotFound => "SrIovVfNotFound"@,
    }
}

impl ErrorKind {
    /// The printable label of this kind.
    pub fn name(&self) -> (r: &'static str)
        ensures
            r@ == kind_label(*self),
    {
        match self {
            ErrorKind::InvalidArgument => "InvalidArgument",
            ErrorKind::PluginFailure => "PluginFailure",
            ErrorKind::Bug => "Bug",
            ErrorKind::VerificationError => "VerificationError",
            ErrorKind::NotImplementedError => "NotImplementedError",
            ErrorKind::NotSupportedError => "NotSupportedError",
            ErrorKind::KernelIntegerRoundedError => "KernelIntegerRoundedError",
            ErrorKind::DependencyError => "DependencyError",
            ErrorKind::PolicyError => "PolicyError",
            ErrorKind::PermissionError => "PermissionError",
            ErrorKind::SrIovVfNotFound => "SrIovVfNotFound",
        }
    }
}

/// A decimal digit as a character.
pub open spec fn digit_char(d: nat) -> char {
    if d == 0 {
        '0'
    } else if d == 1 {
        '1'
    } else if d == 2 {
        '2'
    } else if d == 3 {
        '3'
    } else if d == 4 {
        '4'
    } else if d == 5 {
        '5'
    } else if d == 6 {
        '6'
    } else if d == 7 {
        '7'
    } else if d == 8 {
        '8'
    } else {
        '9'
    }
}

/// The decimal numeral of `n`, most significant digit first, no sign and no
/// leading zeros.
pub open spec fn decimal_text(n: nat) -> Seq<char>
    decreases n,
{
    if n < 10 {
        seq![digit_char(n)]
    } else {
        decimal_text(n / 10) + seq![digit_char(n % 10)]
    }
}

/// `p` repetitions of the padding dot that aligns the caret.
pub open spec fn fill_text(p: nat) -> Seq<char> {
    Seq::new(p, |i: int| '.')
}

/// A lowercase hexadecimal digit as a character.
pub open spec fn hex_digit_char(d: nat) -> char {
    if d == 0 {
        '0'
    } else if d == 1 {
        '1'
    } else if d == 2 {
        '2'
    } else if d == 3 {
        '3'
    } else if d == 4 {
        '4'
    } else if d == 5 {
        '5'
    } else if d == 6 {
        '6'
    } else if d == 7 {
        '7'
    } else if d == 8 {
        '8'
    } else if d == 9 {
        '9'
    } else if d == 10 {
        'a'
    } else if d == 11 {
        'b'
    } else if d == 12 {
        'c'
    } else if d == 13 {
        'd'
    } else if d == 14 {
        'e'
    } else {
        'f'
    }
}

/// The lowercase hexadecimal numeral of `n`, most significant digit first,
/// no leading zeros.
pub open spec fn hex_text(n: nat) -> Seq<char>
    decreases n,
{
    if n < 16 {
        seq![hex_digit_char(n)]
    } else {
        hex_text(n / 16) + seq![hex_digit_char(n % 16)]
    }
}

/// How one character of a listed message is written between the quotes: the
/// named escapes for the quote, the backslash and the common control
/// characters, `\u{...}` for the remaining control characters, and the
/// character itself otherwise.
pub open spec fn escaped_char(c: char) -> Seq<char> {
    if c == '"' {
        seq!['\\', '"']
    } else if c == '\\' {
        seq!['\\', '\\']
    } else if c == '\n' {
        seq!['\\', 'n']
    } else if c == '\r' {
        seq!['\\', 'r']
    } else if c == '\t' {
        seq!['\\', 't']
    } else if c == '\0' {
        seq!['\\', '0']
    } else if (c as u32) < 0x20 || c as u32 == 0x7f {
        seq!['\\', 'u', '{'] + hex_text((c as u32) as nat) + seq!['}']
    } else {
        seq![c]
    }
}

/// A listed message with each of its characters escaped.
pub open spec fn escaped_text(m: Seq<char>) -> Seq<char>
    decreases m.len(),
{
    if m.len() == 0 {
        Seq::empty()
    } else {
        escaped_text(m.drop_last()) + escaped_char(m.last())
    }
}

/// One listed entry: the escaped message between double quotes.
pub open spec fn quoted(m: Seq<char>) -> Seq<char> {
    seq!['"'] + escaped_text(m) + seq!['"']
}

/// The quoted entries, separated by `", "`.
pub open spec fn entries_text(msgs: Seq<Seq<char>>) -> Seq<char>
    decreases msgs.len(),
{
    if msgs.len() == 0 {
        Seq::empty()
    } else if msgs.len() == 1 {
        quoted(msgs[0])
    } else {
        entries_text(msgs.drop_last()) + ", "@ + quoted(msgs.last())
    }
}

/// The rendered message list; an empty list is the empty collection marker
/// `[]`, never omitted.
pub open spec fn list_text(msgs: Seq<Seq<char>>) -> Seq<char> {
    "["@ + entries_text(msgs) + "]"@
}

/// The policy layout.
pub open spec fn policy_text(d: DiagnosticView) -> Seq<char> {
    kind_label(ErrorKind::PolicyError) + ": "@ + d.msg + "\n| "@ + d.line + "\n| "@ + fill_text(
        d.position,
    ) + "^"@ + "\nError count: "@ + decimal_text(d.error_count)
}

/// The generic layout.
pub open spec fn generic_text(d: DiagnosticView) -> Seq<char> {
    kind_label(d.kind) + ": "@ + d.msg + "\nError count: "@ + decimal_text(d.error_count)
        + "\nErrors: "@ + list_text(d.errors)
}

/// What rendering a diagnostic yields: the policy layout for policy failures,
/// the generic layout for every other kind.
pub open spec fn render_text(d: DiagnosticView) -> Seq<char> {
    if d.kind == ErrorKind::PolicyError {
        policy_text(d)
    } else {
        generic_text(d)
    }
}

/// Where the `"| "` marker of the caret line begins within the policy layout.
pub open spec fn caret_marker_start(d: DiagnosticView) -> int {
    (kind_label(ErrorKind::PolicyError).len() + ": "@.len() + d.msg.len() + "\n| "@.len()
        + d.line.len() + 1) as int
}

/// Law: in the policy layout the caret stands exactly `position` characters
/// after the `"| "` marker of its line - dots up to there, the caret next -
/// whatever the message or the source line hold.
pub proof fn lemma_policy_caret_position(d: DiagnosticView)
    requires
        d.kind == ErrorKind::PolicyError,
    ensures
        0 <= caret_marker_start(d),
        caret_marker_start(d) + 2 + d.position < policy_text(d).len(),
        policy_text(d).subrange(caret_marker_start(d), caret_marker_start(d) + 2) == "| "@,
        policy_text(d).subrange(
            caret_marker_start(d) + 2,
            caret_marker_start(d) + 2 + d.position,
        ) == fill_text(d.position),
        policy_text(d)[caret_marker_start(d) + 2 + d.position] == '^',
{
    reveal_strlit(": ");
    reveal_strlit("\n| ");
    reveal_strlit("| ");
    reveal_strlit("^");
    reveal_strlit("\nError count: ");
    let t = policy_text(d);
    let m = caret_marker_start(d);
    assert(t.subrange(m, m + 2) =~= "| "@);
    assert(t.subrange(m + 2, m + 2 + d.position) =~= fill_text(d.position));
    assert(t[m + 2 + d.position] == '^');
}

/// Where entry `i` of the rendered message list begins, counted from the
/// start of the entries: the earlier entries plus their separators.
pub open spec fn entry_start(msgs: Seq<Seq<char>>, i: int) -> int
    decreases i,
{
    if i <= 0 {
        0
    } else {
        entry_start(msgs, i - 1) + quoted(msgs[i - 1]).len() + ", "@.len()
    }
}

proof fn lemma_entry_start_drop_last(msgs: Seq<Seq<char>>, i: int)
    requires
        0 <= i < msgs.len(),
    ensures
        entry_start(msgs.drop_last(), i) == entry_start(msgs, i),
    decreases i,
{
    if i > 0 {
        lemma_entry_start_drop_last(msgs, i - 1);
        assert(msgs.drop_last()[i - 1] == msgs[i - 1]);
    }
}

proof fn lemma_entries_len(msgs: Seq<Seq<char>>)
    requires
        msgs.len() >= 1,
    ensures
        entries_text(msgs).len() == entry_start(msgs, msgs.len() - 1) + quoted(msgs.last()).len(),
    decreases msgs.len(),
{
    if msgs.len() > 1 {
        lemma_entries_len(msgs.drop_last());
        lemma_entry_start_drop_last(msgs, msgs.len() - 2);
        assert(msgs.drop_last().last() == msgs[msgs.len() - 2]);
    }
}

/// Law: the entries of the rendered message list are exactly the messages,
/// escaped, in their listed order: entry `i` is `quoted(msgs[i])` - message
/// `i` escaped, between quotes - and begins at `entry_start(msgs, i)`.
pub proof fn lemma_entries_in_order(msgs: Seq<Seq<char>>, i: int)
    requires
        0 <= i < msgs.len(),
    ensures
        entry_start(msgs, i) + quoted(msgs[i]).len() <= entries_text(msgs).len(),
        entries_text(msgs).subrange(
            entry_start(msgs, i),
            entry_start(msgs, i) + quoted(msgs[i]).len() as int,
        ) == quoted(msgs[i]),
    decreases msgs.len(),
{
    if i == msgs.len() - 1 {
        if msgs.len() == 1 {
            assert(entries_text(msgs).subrange(0, quoted(msgs[0]).len() as int) =~= quoted(
                msgs[0],
            ));
        } else {
            lemma_entries_len(msgs.drop_last());
            lemma_entry_start_drop_last(msgs, i - 1);
            assert(msgs.drop_last()[i - 1] == msgs[i - 1]);
            assert(entry_start(msgs, i) == entries_text(msgs.drop_last()).len() + ", "@.len());
            assert(entries_text(msgs).subrange(
                entry_start(msgs, i),
                entry_start(msgs, i) + quoted(msgs[i]).len() as int,
            ) =~= quoted(msgs[i]));
        }
    } else {
        lemma_entries_in_order(msgs.drop_last(), i);
        lemma_entry_start_drop_last(msgs, i);
        lemma_entry_start_nonneg(msgs, i);
        assert(msgs.drop_last()[i] == msgs[i]);
        let prefix = entries_text(msgs.drop_last());
        let s = entry_start(msgs, i);
        let e = s + quoted(msgs[i]).len();
        assert(0 <= s && e <= prefix.len());
        assert(entries_text(msgs) == prefix + ", "@ + quoted(msgs.last()));
        assert(forall|j: int|
            0 <= j < prefix.len() ==> (prefix + ", "@ + quoted(msgs.last()))[j] == prefix[j]);
        assert(entries_text(msgs).subrange(s, e) =~= prefix.subrange(s, e));
    }
}

/// Where the message list begins within the generic layout.
pub open spec fn list_start(d: DiagnosticView) -> int {
    (kind_label(d.kind).len() + ": "@.len() + d.msg.len() + "\nError count: "@.len()
        + decimal_text(d.error_count).len() + "\nErrors: "@.len()) as int
}

/// Law: rendering a generic-layout diagnostic with `n` secondary messages
/// shows exactly those `n` entries, in order: entry `i` stands escaped and
/// quoted at the offset that the opening bracket and the earlier entries
/// determine.
pub proof fn lemma_generic_layout_lists_messages(d: DiagnosticView, i: int)
    requires
        d.kind != ErrorKind::PolicyError,
        0 <= i < d.errors.len(),
    ensures
        generic_text(d).subrange(
            list_start(d) + "["@.len() + entry_start(d.errors, i),
            list_start(d) + "["@.len() + entry_start(d.errors, i) + quoted(d.errors[i]).len(),
        ) == quoted(d.errors[i]),
{
    lemma_entries_in_order(d.errors, i);
    assert(entry_start(d.errors, i) >= 0) by {
        lemma_entry_start_nonneg(d.errors, i);
    }
    let s = list_start(d) + "["@.len() + entry_start(d.errors, i);
    assert(generic_text(d).subrange(s, s + quoted(d.errors[i]).len()) =~= entries_text(
        d.errors,
    ).subrange(entry_start(d.errors, i), entry_start(d.errors, i) + quoted(d.errors[i]).len()));
}

proof fn lemma_entry_start_nonneg(msgs: Seq<Seq<char>>, i: int)
    ensures
        entry_start(msgs, i) >= 0,
    decreases i,
{
    if i > 0 {
        lemma_entry_start_nonneg(msgs, i - 1);
    }
}

/// Appends the decimal numeral of `n`.
fn push_decimal(out: &mut String, n: usize)
    ensures
        final(out)@ == old(out)@ + decimal_text(n as nat),
    decreases n,
{
    if n >= 10 {
        push_decimal(out, n / 10);
    }
    let d: usize = n % 10;
    let ds: &str = if d == 0 {
        "0"
    } else if d == 1 {
        "1"
    } else if d == 2 {
        "2"
    } else if d == 3 {
        "3"
    } else if d == 4 {
        "4"
    } else if d == 5 {
        "5"
    } else if d == 6 {
        "6"
    } else if d == 7 {
        "7"
    } else if d == 8 {
        "8"
    } else {
        "9"
    };
    proof {
        reveal_strlit("0");
        reveal_strlit("1");
        reveal_strlit("2");
        reveal_strlit("3");
        reveal_strlit("4");
        reveal_strlit("5");
        reveal_strlit("6");
        reveal_strlit("7");
        reveal_strlit("8");
        reveal_strlit("9");
        assert(ds@ =~= seq![digit_char((n % 10) as nat)]);
    }
    out.append(ds);
    proof {
        assert(out@ =~= old(out)@ + decimal_text(n as nat));
    }
}

/// Appends `count` padding dots.
fn push_fill(out: &mut String, count: usize)
    ensures
        final(out)@ == old(out)@ + fill_text(count as nat),
{
    let ghost base = out@;
    let mut i: usize = 0;
    while i < count
        invariant
            i <= count,
            out@ == base + fill_text(i as nat),
        decreases count - i,
    {
        proof {
            reveal_strlit(".");
        }
        out.append(".");
        proof {
            assert(out@ =~= base + fill_text((i + 1) as nat));
        }
        i = i + 1;
    }
    proof {
        assert(base + fill_text(0) =~= base);
    }
}

/// Relies on std's `String::push`: it appends exactly the one character.
#[verifier::external_body]
fn push_char(out: &mut String, c: char)
    ensures
        final(out)@ == old(out)@ + seq![c],
{
    out.push(c);
}

/// Appends the lowercase hexadecimal numeral of `n`.
fn push_hex(out: &mut String, n: u32)
    ensures
        final(out)@ == old(out)@ + hex_text(n as nat),
    decreases n,
{
    if n >= 16 {
        push_hex(out, n / 16);
    }
    let d: u32 = n % 16;
    let ds: &str = if d == 0 {
        "0"
    } else if d == 1 {
        "1"
    } else if d == 2 {
        "2"
    } else if d == 3 {
        "3"
    } else if d == 4 {
        "4"
    } else if d == 5 {
        "5"
    } else if d == 6 {
        "6"
    } else if d == 7 {
        "7"
    } else if d == 8 {
        "8"
    } else if d == 9 {
        "9"
    } else if d == 10 {
        "a"
    } else if d == 11 {
        "b"
    } else if d == 12 {
        "c"
    } else if d == 13 {
        "d"
    } else if d == 14 {
        "e"
    } else {
        "f"
    };
    proof {
        reveal_strlit("0");
        reveal_strlit("1");
        reveal_strlit("2");
        reveal_strlit("3");
        reveal_strlit("4");
        reveal_strlit("5");
        reveal_strlit("6");
        reveal_strlit("7");
        reveal_strlit("8");
        reveal_strlit("9");
        reveal_strlit("a");
        reveal_strlit("b");
        reveal_strlit("c");
        reveal_strlit("d");
        reveal_strlit("e");
        reveal_strlit("f");
        assert(ds@ =~= seq![hex_digit_char((n % 16) as nat)]);
    }
    out.append(ds);
    proof {
        assert(out@ =~= old(out)@ + hex_text(n as nat));
    }
}

/// Appends one message character in its escaped form.
fn push_escaped_char(out: &mut String, c: char)
    ensures
        final(out)@ == old(out)@ + escaped_char(c),
{
    if c == '"' {
        proof {
            reveal_strlit("\\\"");
        }
        out.append("\\\"");
    } else if c == '\\' {
        proof {
            reveal_strlit("\\\\");
        }
        out.append("\\\\");
    } else if c == '\n' {
        proof {
            reveal_strlit("\\n");
        }
        out.append("\\n");
    } else if c == '\r' {
        proof {
            reveal_strlit("\\r");
        }
        out.append("\\r");
    } else if c == '\t' {
        proof {
            reveal_strlit("\\t");
        }
        out.append("\\t");
    } else if c == '\0' {
        proof {
            reveal_strlit("\\0");
        }
        out.append("\\0");
    } else {
        let code = c as u32;
        if code < 0x20 || code == 0x7f {
            proof {
                reveal_strlit("\\u{");
                reveal_strlit("}");
            }
            out.append("\\u{");
            push_hex(out, code);
            out.append("}");
            proof {
                assert(out@ =~= old(out)@ + escaped_char(c));
            }
        } else {
            push_char(out, c);
        }
    }
}

/// Appends one listed entry: the escaped message between double quotes.
fn push_quoted(out: &mut String, m: &str)
    ensures
        final(out)@ == old(out)@ + quoted(m@),
{
    let ghost base = out@;
    proof {
        reveal_strlit("\"");
    }
    out.append("\"");
    let n = m.unicode_len();
    let mut i: usize = 0;
    while i < n
        invariant
            i <= n,
            n == m@.len(),
            out@ == base + seq!['"'] + escaped_text(m@.take(i as int)),
        decreases n - i,
    {
        let c = m.get_char(i);
        push_escaped_char(out, c);
        proof {
            assert(m@.take(i as int + 1).drop_last() =~= m@.take(i as int));
            assert(m@.take(i as int + 1).last() == m@[i as int]);
            assert(out@ =~= base + seq!['"'] + escaped_text(m@.take(i as int + 1)));
        }
        i = i + 1;
    }
    out.append("\"");
    proof {
        assert(m@.take(m@.len() as int) =~= m@);
        assert(out@ =~= base + quoted(m@));
    }
}

/// Appends the rendered message list.
fn push_list(out: &mut String, msgs: &Vec<String>)
    ensures
        final(out)@ == old(out)@ + list_text(texts_of(msgs@)),
{
    let ghost base = out@;
    out.append("[");
    let mut i: usize = 0;
    while i < msgs.len()
        invariant
            i <= msgs@.len(),
            out@ == base + "["@ + entries_text(texts_of(msgs@).take(i as int)),
        decreases msgs@.len() - i,
    {
        if i > 0 {
            out.append(", ");
        }
        push_quoted(out, msgs[i].as_str());
        proof {
            let ts = texts_of(msgs@);
            assert(ts.take(i as int + 1).drop_last() =~= ts.take(i as int));
            assert(ts.take(i as int + 1).last() == ts[i as int]);
            if i == 0 {
                assert(out@ =~= base + "["@ + entries_text(ts.take(i as int + 1)));
            } else {
                assert(entries_text(ts.take(i as int + 1)) == entries_text(ts.take(i as int))
                    + ", "@ + quoted(ts[i as int]));
                assert(out@ =~= base + "["@ + entries_text(ts.take(i as int + 1)));
            }
        }
        i = i + 1;
    }
    out.append("]");
    proof {
        assert(texts_of(msgs@).take(msgs@.len() as int) =~= texts_of(msgs@));
        assert(out@ =~= base + list_text(texts_of(msgs@)));
    }
}

impl NmstateError {
    /// The stable text rendering of this diagnostic; tooling that greps these
    /// reports depends on the exact shape.
    pub fn render(&self) -> (r: String)
        ensures
            r@ == render_text(self@),
    {
        let mut out = String::new();
        out.append(self.kind().name());
        out.append(": ");
        out.append(self.msg());
        if self.kind() == ErrorKind::PolicyError {
            out.append("\n| ");
            out.append(self.line());
            out.append("\n| ");
            push_fill(&mut out, self.position());
            out.append("^");
            out.append("\nError count: ");
            push_decimal(&mut out, self.error_count());
            proof {
                assert(out@ =~= policy_text(self@));
            }
        } else {
            out.append("\nError count: ");
            push_decimal(&mut out, self.error_count());
            out.append("\nErrors: ");
            push_list(&mut out, self.secondary_messages());
            proof {
                assert(out@ =~= generic_text(self@));
            }
        }
        out
    }
}

} // verus!
