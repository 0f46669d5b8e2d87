//! Rendering utilities: pure functions that turn snapshots of interpreter
//! state (span excerpts, instruction listings, slot and environment tables)
//! into the exact text the tracing and stepping sinks receive.

use crate::text::{dec_str, push_char, push_decimal};
use vstd::prelude::*;
use vstd::string::{StrSliceExecFns, StringExecFns};

verus! {

/// A newline shown inside a code excerpt is replaced by a space.
pub open spec fn sanitize_char(c: char) -> char {
    if c == '\n' {
        ' '
    } else {
        c
    }
}

/// How many bytes a character occupies in UTF-8.
pub open spec fn utf8_len(c: char) -> nat {
    if (c as u32) < 0x80 {
        1
    } else if (c as u32) < 0x800 {
        2
    } else if (c as u32) < 0x10000 {
        3
    } else {
        4
    }
}

/// The longest prefix of `code` whose characters fit, whole, into `budget`
/// bytes of UTF-8.
pub open spec fn take_bytes(code: Seq<char>, budget: int) -> Seq<char>
    decreases code.len(),
{
    if code.len() == 0 || utf8_len(code.first()) > budget {
        Seq::empty()
    } else {
        seq![code.first()] + take_bytes(code.drop_first(), budget - utf8_len(code.first()))
    }
}

/// The code excerpt of a span: the first ten bytes of the decoded text —
/// whole characters only, and all of the text when it is shorter — with
/// newlines replaced by spaces, followed by an ellipsis.
pub open spec fn excerpt(code: Seq<char>) -> Seq<char> {
    take_bytes(code, 10).map(|_i, c: char| sanitize_char(c)) + "…"@
}

/// Computes a character's length in UTF-8.
pub fn char_utf8_len(c: char) -> (r: usize)
    ensures
        r == utf8_len(c),
{
    let code: u32 = c as u32;
    if code < 0x80 {
        1
    } else if code < 0x800 {
        2
    } else if code < 0x10000 {
        3
    } else {
        4
    }
}

/// The trace line for an event over a known span: the message, the span's
/// bounds, and the code excerpt.
pub open spec fn span_line(message: Seq<char>, start: nat, end: nat, code: Seq<char>) -> Seq<
    char,
> {
    message + ": span="@ + dec_str(start) + ".."@ + dec_str(end) + ", code="@ + excerpt(code)
}

/// The trace line for an event whose block has no origin span.
pub open spec fn span_null_line(message: Seq<char>) -> Seq<char> {
    message + ": span=null"@
}

/// The trace line for an instruction event: the message and the instruction's
/// textual rendering.
pub open spec fn instruction_line(message: Seq<char>, text: Seq<char>) -> Seq<char> {
    message + ": instruction="@ + text
}

/// Appends the sanitized characters of `code`, from position `i` on, that
/// fit whole into `budget` bytes of UTF-8.
fn push_excerpt_chars(out: &mut String, code: &str, i: usize, budget: usize)
    requires
        i <= code@.len(),
    ensures
        final(out)@ == old(out)@ + take_bytes(code@.skip(i as int), budget as int).map(
            |_i, c: char| sanitize_char(c),
        ),
    decreases code@.len() - i,
{
    let ghost rest = code@.skip(i as int);
    if i == code.unicode_len() {
        proof {
            assert(old(out)@ + take_bytes(rest, budget as int).map(
                |_i, c: char| sanitize_char(c),
            ) =~= old(out)@);
        }
        return ;
    }
    let c = code.get_char(i);
    let l = char_utf8_len(c);
    if l > budget {
        proof {
            assert(rest.first() == c);
            assert(old(out)@ + take_bytes(rest, budget as int).map(
                |_i, c: char| sanitize_char(c),
            ) =~= old(out)@);
        }
        return ;
    }
    if c == '\n' {
        push_char(out, ' ');
    } else {
        push_char(out, c);
    }
    push_excerpt_chars(out, code, i + 1, budget - l);
    proof {
        assert(rest.first() == c);
        assert(rest.drop_first() =~= code@.skip(i + 1));
        assert(take_bytes(rest, budget as int) == seq![c] + take_bytes(
            code@.skip(i + 1),
            budget - l,
        ));
        assert(old(out)@ + take_bytes(rest, budget as int).map(|_i, c: char| sanitize_char(c))
            =~= (old(out)@.push(sanitize_char(c))) + take_bytes(
            code@.skip(i + 1),
            budget - l,
        ).map(|_i, c: char| sanitize_char(c)));
    }
}

/// Appends the code excerpt of `code` to `out`.
pub fn push_excerpt(out: &mut String, code: &str)
    ensures
        final(out)@ == old(out)@ + excerpt(code@),
{
    push_excerpt_chars(out, code, 0, 10);
    proof {
        assert(code@.skip(0) =~= code@);
    }
    out.append("…");
}

/// Renders the trace line for an event over the span `[start, end)` whose
/// source text is `code`.
pub fn render_span_line(message: &str, start: usize, end: usize, code: &str) -> (r: String)
    ensures
        r@ == span_line(message@, start as nat, end as nat, code@),
{
    let mut out = String::new();
    out.append(message);
    out.append(": span=");
    push_decimal(&mut out, start as u64);
    out.append("..");
    push_decimal(&mut out, end as u64);
    out.append(", code=");
    push_excerpt(&mut out, code);
    out
}

/// Renders the trace line for an event on a block without an origin span.
pub fn render_span_null_line(message: &str) -> (r: String)
    ensures
        r@ == span_null_line(message@),
{
    let mut out = String::new();
    out.append(message);
    out.append(": span=null");
    out
}

/// Renders the trace line for an instruction event.
pub fn render_instruction_line(message: &str, text: &str) -> (r: String)
    ensures
        r@ == instruction_line(message@, text@),
{
    let mut out = String::new();
    out.append(message);
    out.append(": instruction=");
    out.append(text);
    out
}

/// The lines of a listing, joined by single newlines.
pub open spec fn joined(lines: Seq<Seq<char>>) -> Seq<char>
    decreases lines.len(),
{
    if lines.len() == 0 {
        Seq::empty()
    } else if lines.len() == 1 {
        lines[0]
    } else {
        lines[0] + "\n"@ + joined(lines.skip(1))
    }
}

/// Joining one more line appends a newline and that line (except to an empty
/// listing, which becomes the line itself).
pub proof fn lemma_joined_push(lines: Seq<Seq<char>>, x: Seq<char>)
    ensures
        joined(lines.push(x)) == if lines.len() == 0 {
            x
        } else {
            joined(lines) + "\n"@ + x
        },
    decreases lines.len(),
{
    if lines.len() == 0 {
        assert(lines.push(x)[0] == x);
    } else {
        assert(lines.push(x).skip(1) =~= lines.skip(1).push(x));
        lemma_joined_push(lines.skip(1), x);
        if lines.len() > 1 {
            assert(lines[0] + "\n"@ + (joined(lines.skip(1)) + "\n"@ + x) =~= (lines[0] + "\n"@
                + joined(lines.skip(1))) + "\n"@ + x);
        }
    }
}

/// The leading highlight of an instruction listing line: a red marker at the
/// current instruction, a plain space everywhere else.
pub open spec fn ir_point(idx: nat, current: nat) -> Seq<char> {
    if idx == current {
        "\x1b[1;31m>"@
    } else {
        " "@
    }
}

/// Lines of every listing alternate between two colours by index parity.
pub open spec fn parity_colour(idx: nat) -> Seq<char> {
    if idx % 2 == 0 {
        "\x1b[32m"@
    } else {
        "\x1b[33m"@
    }
}

/// One line of the instruction listing: highlight, parity colour, index, and
/// the instruction's textual rendering.
pub open spec fn ir_line(text: Seq<char>, idx: nat, current: nat) -> Seq<char> {
    ir_point(idx, current) + parity_colour(idx) + dec_str(idx) + ": "@ + text
}

/// All lines of the instruction listing for the given rendered instructions.
pub open spec fn ir_lines(texts: Seq<Seq<char>>, current: nat) -> Seq<Seq<char>> {
    Seq::new(texts.len(), |i: int| ir_line(texts[i], i as nat, current))
}

/// One line of the slot listing: parity colour, slot index, declared type.
pub open spec fn register_line(text: Seq<char>, idx: nat) -> Seq<char> {
    parity_colour(idx) + dec_str(idx) + ": "@ + text
}

/// All lines of the slot listing.
pub open spec fn register_lines(texts: Seq<Seq<char>>) -> Seq<Seq<char>> {
    Seq::new(texts.len(), |i: int| register_line(texts[i], i as nat))
}

/// One line of the environment listing: a variable's name and declared type.
pub open spec fn env_line(name: Seq<char>, ty: Seq<char>) -> Seq<char> {
    name + ": "@ + ty
}

/// All lines of the environment listing.
pub open spec fn env_lines(pairs: Seq<(Seq<char>, Seq<char>)>) -> Seq<Seq<char>> {
    Seq::new(pairs.len(), |i: int| env_line(pairs[i].0, pairs[i].1))
}

/// Renders the instruction listing: one line per rendered instruction, the
/// line at `current` marked with the highlight, colours alternating by index
/// parity, lines joined by newlines.
#[verifier::loop_isolation(false)]
pub fn render_ir(texts: &Vec<String>, current: usize) -> (r: String)
    ensures
        r@ == joined(ir_lines(texts.deep_view(), current as nat)),
{
    let ghost all = ir_lines(texts.deep_view(), current as nat);
    let mut out = String::new();
    let mut i: usize = 0;
    while i < texts.len()
        invariant
            i <= texts.len(),
            out@ == joined(all.take(i as int)),
        decreases texts.len() - i,
    {
        if i > 0 {
            out.append("\n");
        }
        if i == current {
            out.append("\x1b[1;31m>");
        } else {
            out.append(" ");
        }
        if i % 2 == 0 {
            out.append("\x1b[32m");
        } else {
            out.append("\x1b[33m");
        }
        push_decimal(&mut out, i as u64);
        out.append(": ");
        out.append(texts[i].as_str());
        proof {
            assert(all.take(i + 1) =~= all.take(i as int).push(all[i as int]));
            lemma_joined_push(all.take(i as int), all[i as int]);
            assert(out@ == joined(all.take(i + 1)));
        }
        i = i + 1;
    }
    proof {
        assert(all.take(texts@.len() as int) =~= all);
    }
    out
}

/// Renders the slot listing: one line per slot, its index and declared type,
/// colours alternating by index parity.
#[verifier::loop_isolation(false)]
pub fn render_registers(type_texts: &Vec<String>) -> (r: String)
    ensures
        r@ == joined(register_lines(type_texts.deep_view())),
{
    let ghost all = register_lines(type_texts.deep_view());
    let mut out = String::new();
    let mut i: usize = 0;
    while i < type_texts.len()
        invariant
            i <= type_texts.len(),
            out@ == joined(all.take(i as int)),
        decreases type_texts.len() - i,
    {
        if i > 0 {
            out.append("\n");
        }
        if i % 2 == 0 {
            out.append("\x1b[32m");
        } else {
            out.append("\x1b[33m");
        }
        push_decimal(&mut out, i as u64);
        out.append(": ");
        out.append(type_texts[i].as_str());
        proof {
            assert(all.take(i + 1) =~= all.take(i as int).push(all[i as int]));
            lemma_joined_push(all.take(i as int), all[i as int]);
        }
        i = i + 1;
    }
    proof {
        assert(all.take(type_texts@.len() as int) =~= all);
    }
    out
}

/// A line carries the highlight marker of the current instruction.
pub open spec fn has_marker(line: Seq<char>) -> bool {
    "\x1b[1;31m>"@.is_prefix_of(line)
}

/// In an instruction listing, exactly the line at the current index carries
/// the highlight marker, and every line shows the colour of its index's
/// parity immediately after its leading highlight column.
pub proof fn lemma_ir_marker_and_parity(texts: Seq<Seq<char>>, current: nat)
    ensures
        forall|i: int|
            0 <= i < texts.len() ==> (has_marker(#[trigger] ir_lines(texts, current)[i]) <==> i
                == current),
        forall|i: int|
            0 <= i < texts.len() ==> parity_colour(i as nat).is_prefix_of(
                #[trigger] ir_lines(texts, current)[i].skip(
                    ir_point(i as nat, current).len() as int,
                ),
            ),
{
    reveal_strlit("\x1b[1;31m>");
    reveal_strlit(" ");
    assert forall|i: int|
        0 <= i < texts.len() implies (has_marker(#[trigger] ir_lines(texts, current)[i]) <==> i
        == current) by {
        let line = ir_lines(texts, current)[i];
        if i == current {
            assert("\x1b[1;31m>"@ =~= line.subrange(0, "\x1b[1;31m>"@.len() as int));
        } else {
            assert(line[0] == ' ');
            if has_marker(line) {
                assert(line[0] == "\x1b[1;31m>"@[0]);
                assert(false);
            }
        }
    }
    assert forall|i: int| 0 <= i < texts.len() implies parity_colour(i as nat).is_prefix_of(
        #[trigger] ir_lines(texts, current)[i].skip(ir_point(i as nat, current).len() as int),
    ) by {
        let line = ir_lines(texts, current)[i];
        let point = ir_point(i as nat, current);
        let colour = parity_colour(i as nat);
        let rest = line.skip(point.len() as int);
        assert(rest =~= colour + dec_str(i as nat) + ": "@ + texts[i]);
        assert(colour =~= rest.subrange(0, colour.len() as int));
    }
}

/// The full snapshot sent to the stepper's UI process: the three headed
/// sections (environment, slots, instruction listing) and the trailing call
/// to action.
pub open spec fn snapshot_text(env: Seq<char>, regs: Seq<char>, ir: Seq<char>) -> Seq<char> {
    "\x1b[1;37;45m  <=== ENV ===>  \x1b[0m\n"@ + env
        + "\n\n\x1b[1;37;45m  <=== REGISTERS ===>  \x1b[0m\n"@ + regs
        + "\n\n\x1b[1;37;45m  <=== IR ===>  \x1b[0m\n"@ + ir
        + "\n\n\x1b[1;36mstep: ENTER INSTRUCTION\x1b[0m\npress <return> to continue execution"@
}

/// Composes the stepper's snapshot from the environment listing, the slot
/// type listing, and the rendered instruction texts with the current index.
pub fn compose_snapshot(
    env_pairs: &Vec<(String, String)>,
    reg_texts: &Vec<String>,
    ir_texts: &Vec<String>,
    current: usize,
) -> (r: String)
    ensures
        r@ == snapshot_text(
            joined(env_lines(pair_views(env_pairs@))),
            joined(register_lines(reg_texts.deep_view())),
            joined(ir_lines(ir_texts.deep_view(), current as nat)),
        ),
{
    let mut out = String::new();
    out.append("\x1b[1;37;45m  <=== ENV ===>  \x1b[0m\n");
    let env = render_env_vars(env_pairs);
    out.append(env.as_str());
    out.append("\n\n\x1b[1;37;45m  <=== REGISTERS ===>  \x1b[0m\n");
    let regs = render_registers(reg_texts);
    out.append(regs.as_str());
    out.append("\n\n\x1b[1;37;45m  <=== IR ===>  \x1b[0m\n");
    let ir = render_ir(ir_texts, current);
    out.append(ir.as_str());
    out.append("\n\n\x1b[1;36mstep: ENTER INSTRUCTION\x1b[0m\npress <return> to continue execution");
    out
}

/// The environment listing pairs as their views.
pub open spec fn pair_views(pairs: Seq<(String, String)>) -> Seq<(Seq<char>, Seq<char>)> {
    Seq::new(pairs.len(), |i: int| (pairs[i].0@, pairs[i].1@))
}

/// Renders the environment listing: one `name: type` line per variable.
#[verifier::loop_isolation(false)]
pub fn render_env_vars(pairs: &Vec<(String, String)>) -> (r: String)
    ensures
        r@ == joined(env_lines(pair_views(pairs@))),
{
    let ghost all = env_lines(pair_views(pairs@));
    let mut out = String::new();
    let mut i: usize = 0;
    while i < pairs.len()
        invariant
            i <= pairs.len(),
            out@ == joined(all.take(i as int)),
        decreases pairs.len() - i,
    {
        if i > 0 {
            out.append("\n");
        }
        out.append(pairs[i].0.as_str());
        out.append(": ");
        out.append(pairs[i].1.as_str());
        proof {
            assert(all.take(i + 1) =~= all.take(i as int).push(all[i as int]));
            lemma_joined_push(all.take(i as int), all[i as int]);
        }
        i = i + 1;
    }
    proof {
        assert(all.take(pairs@.len() as int) =~= all);
    }
    out
}

} // verus!
