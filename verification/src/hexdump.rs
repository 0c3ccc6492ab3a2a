//! The report that is shown for one captured packet: a summary line, a dump
//! of the transport payload in hexadecimal with a letter column, and a rule
//! of `=` signs.
//!
//! The dump is made of lines of up to [`WIDTH`] bytes. A line is not closed
//! by a line break: the next line, or the rule, follows its letter column
//! directly.

use vstd::prelude::*;
use vstd::string::*;
use crate::packets::GettableEndPoints;
use crate::text::{ascii_cell, ascii_char, hex_digit, hex_digit_char};

verus! {

/// Number of payload bytes that one line of the dump shows.
pub const WIDTH: usize = 20;

/// Number of `=` signs in the rule that ends a report.
pub const RULE_WIDTH: usize = 60;

/// One hexadecimal column: the two digits of `b` and a space.
pub open spec fn hex_cell(b: u8) -> Seq<char> {
    seq![hex_digit((b / 16) as nat), hex_digit((b % 16) as nat), ' ']
}

/// The hexadecimal columns of `bytes`, in order.
pub open spec fn hex_cells(bytes: Seq<u8>) -> Seq<char>
    decreases bytes.len(),
{
    if bytes.len() == 0 {
        Seq::empty()
    } else {
        hex_cells(bytes.drop_last()) + hex_cell(bytes.last())
    }
}

/// The letter column of `bytes`: one character for each byte.
pub open spec fn ascii_cells(bytes: Seq<u8>) -> Seq<char> {
    Seq::new(bytes.len(), |i: int| ascii_cell(bytes[i]))
}

/// Blank space that stands for `columns` missing hexadecimal columns.
pub open spec fn padding(columns: nat) -> Seq<char> {
    Seq::new(3 * columns, |i: int| ' ')
}

/// One line of the dump, for a group of at most [`WIDTH`] bytes: the
/// hexadecimal columns, blank space up to the full width, the separator
/// `"| "` and the letter column.
pub open spec fn dump_line(group: Seq<u8>) -> Seq<char>
    recommends
        group.len() <= WIDTH,
{
    hex_cells(group) + padding((WIDTH - group.len()) as nat) + seq!['|', ' '] + ascii_cells(group)
}

/// Number of lines in the dump of `len` bytes: `len / WIDTH`, rounded up.
pub open spec fn line_count(len: nat) -> nat {
    ((len + WIDTH - 1) / (WIDTH as int)) as nat
}

/// The bytes that line `k` of the dump of `payload` shows.
pub open spec fn line_bytes(payload: Seq<u8>, k: int) -> Seq<u8>
    recommends
        0 <= k < line_count(payload.len()),
{
    payload.subrange(
        WIDTH * k,
        if WIDTH * k + WIDTH <= payload.len() {
            WIDTH * k + WIDTH
        } else {
            payload.len() as int
        },
    )
}

/// The first `n` lines of the dump of `payload`, one after the other.
pub open spec fn dump_lines(payload: Seq<u8>, n: nat) -> Seq<char>
    recommends
        n <= line_count(payload.len()),
    decreases n,
{
    if n == 0 {
        Seq::empty()
    } else {
        dump_lines(payload, (n - 1) as nat) + dump_line(line_bytes(payload, n - 1))
    }
}

/// The dump of `payload`: all of its lines. It is empty for an empty payload.
pub open spec fn dump(payload: Seq<u8>) -> Seq<char> {
    dump_lines(payload, line_count(payload.len()))
}

/// The rule that ends a report.
pub open spec fn rule() -> Seq<char> {
    Seq::new(RULE_WIDTH as nat, |i: int| '=')
}

/// The summary line of a report with the blank line after it.
pub open spec fn summary(
    proto: Seq<char>,
    l3_source: Seq<char>,
    l4_source: Seq<char>,
    l3_destination: Seq<char>,
    l4_destination: Seq<char>,
) -> Seq<char> {
    "Captured a "@ + proto + " packet from "@ + l3_source + seq!['|'] + l4_source + " to "@
        + l3_destination + seq!['|'] + l4_destination + seq!['\n', '\n']
}

/// The whole report: summary line, blank line, dump, rule, line break and
/// blank line.
pub open spec fn report(
    proto: Seq<char>,
    l3_source: Seq<char>,
    l4_source: Seq<char>,
    l3_destination: Seq<char>,
    l4_destination: Seq<char>,
    payload: Seq<u8>,
) -> Seq<char> {
    summary(proto, l3_source, l4_source, l3_destination, l4_destination) + dump(payload) + rule()
        + seq!['\n', '\n']
}

/// The hexadecimal columns of `bytes` take three characters for each byte.
pub proof fn lemma_hex_cells_len(bytes: Seq<u8>)
    ensures
        hex_cells(bytes).len() == 3 * bytes.len(),
    decreases bytes.len(),
{
    if bytes.len() > 0 {
        lemma_hex_cells_len(bytes.drop_last());
    }
}

/// The dump of `len` bytes has `len / WIDTH` lines, rounded up: none for
/// an empty payload, and otherwise the least number of lines of [`WIDTH`]
/// bytes that hold them all.
pub proof fn lemma_line_count(len: nat)
    ensures
        line_count(len) == 0 <==> len == 0,
        len <= WIDTH * line_count(len) < len + WIDTH,
{
}

/// Every line of a dump shows at least one byte and at most [`WIDTH`],
/// and every line but the last shows [`WIDTH`]. Its hexadecimal columns
/// and the blank columns after them are [`WIDTH`] columns of three
/// characters together, and its letter column has one character for each
/// hexadecimal column: the one that [`ascii_cell`] gives for that byte.
pub proof fn lemma_line_shape(payload: Seq<u8>, k: int)
    requires
        0 <= k < line_count(payload.len()),
    ensures
        ({
            let group = line_bytes(payload, k);
            let blank = (WIDTH - group.len()) as nat;
            &&& 1 <= group.len() <= WIDTH
            &&& k + 1 < line_count(payload.len()) ==> group.len() == WIDTH
            &&& group.len() + blank == WIDTH
            &&& hex_cells(group).len() == 3 * group.len()
            &&& padding(blank).len() == 3 * blank
            &&& ascii_cells(group).len() == group.len()
            &&& forall|i: int|
                0 <= i < group.len() ==> #[trigger] ascii_cells(group)[i] == ascii_cell(
                    payload[WIDTH * k + i],
                )
            &&& dump_line(group).len() == 3 * WIDTH + 2 + group.len()
        }),
{
    lemma_hex_cells_len(line_bytes(payload, k));
}

/// The first `n` lines of a dump hold the first `n` groups of bytes, and
/// for each line the columns and the separator besides.
proof fn lemma_dump_lines_len(payload: Seq<u8>, n: nat)
    requires
        n <= line_count(payload.len()),
    ensures
        dump_lines(payload, n).len() == (3 * WIDTH + 2) * n + if WIDTH * n <= payload.len() {
            WIDTH * n
        } else {
            payload.len() as int
        },
    decreases n,
{
    if n > 0 {
        lemma_dump_lines_len(payload, (n - 1) as nat);
        lemma_line_shape(payload, n - 1);
        assert((3 * WIDTH + 2) * n == (3 * WIDTH + 2) * (n - 1) + (3 * WIDTH + 2))
            by (nonlinear_arith);
    } else {
        assert((3 * WIDTH + 2) * n == 0) by (nonlinear_arith)
            requires
                n == 0,
        ;
    }
}

/// The length of a dump: one character for each byte in the letter
/// columns, and for each line [`WIDTH`] columns of three characters and
/// the separator of two.
pub proof fn lemma_dump_len(payload: Seq<u8>)
    ensures
        dump(payload).len() == (3 * WIDTH + 2) * line_count(payload.len()) + payload.len(),
{
    lemma_dump_lines_len(payload, line_count(payload.len()));
}

/// Extending a run of bytes by one extends its hexadecimal columns by one.
proof fn lemma_hex_cells_step(payload: Seq<u8>, from: int, to: int)
    requires
        0 <= from <= to < payload.len(),
    ensures
        hex_cells(payload.subrange(from, to + 1)) == hex_cells(payload.subrange(from, to))
            + hex_cell(payload[to]),
{
    assert(payload.subrange(from, to + 1).drop_last() =~= payload.subrange(from, to));
}

fn push_hex_cell(out: &mut String, b: u8)
    ensures
        final(out)@ == old(out)@ + hex_cell(b),
{
    out.push(hex_digit_char(b / 16));
    out.push(hex_digit_char(b % 16));
    out.push(' ');
    assert(out@ =~= old(out)@ + hex_cell(b));
}

fn push_padding(out: &mut String, columns: usize)
    ensures
        final(out)@ == old(out)@ + padding(columns as nat),
{
    let mut j: usize = 0;
    while j < columns
        invariant
            j <= columns,
            out@ == old(out)@ + padding(j as nat),
        decreases columns - j,
    {
        out.push(' ');
        out.push(' ');
        out.push(' ');
        j += 1;
        assert(out@ =~= old(out)@ + padding(j as nat));
    }
}

fn push_ascii_cells(out: &mut String, payload: &[u8], from: usize, to: usize)
    requires
        from <= to <= payload@.len(),
    ensures
        final(out)@ == old(out)@ + ascii_cells(payload@.subrange(from as int, to as int)),
{
    let mut j: usize = from;
    while j < to
        invariant
            from <= j <= to <= payload@.len(),
            out@ == old(out)@ + ascii_cells(payload@.subrange(from as int, j as int)),
        decreases to - j,
    {
        out.push(ascii_char(payload[j]));
        j += 1;
        assert(out@ =~= old(out)@ + ascii_cells(payload@.subrange(from as int, j as int)));
    }
}

/// The dump of `payload` in hexadecimal with its letter column.
///
/// Each byte is written as two upper-case hexadecimal digits and a space.
/// After every [`WIDTH`] bytes, and after the last byte, the line is
/// closed: blank space fills the missing columns, then come `"| "` and,
/// for each byte of the line, the byte itself if it is an ASCII letter and
/// a full stop otherwise.
pub fn hex_dump(payload: &[u8]) -> (text: String)
    ensures
        text@ == dump(payload@),
{
    let len: usize = payload.len();
    let mut out = String::new();
    let mut i: usize = 0;
    while i < len
        invariant
            i <= len,
            len == payload@.len(),
            i < len ==> out@ == dump_lines(payload@, (i / WIDTH) as nat) + hex_cells(
                payload@.subrange(WIDTH * (i / WIDTH), i as int),
            ),
            i == len ==> out@ == dump(payload@),
        decreases len - i,
    {
        let ghost line: int = (i / WIDTH) as int;
        let ghost closed: Seq<char> = dump_lines(payload@, line as nat);
        push_hex_cell(&mut out, payload[i]);
        proof {
            lemma_hex_cells_step(payload@, WIDTH * line, i as int);
            assert(out@ =~= closed + hex_cells(payload@.subrange(WIDTH * line, i + 1)));
        }
        if i % WIDTH == WIDTH - 1 || i == len - 1 {
            push_padding(&mut out, WIDTH - 1 - (i % WIDTH));
            out.append("| ");
            push_ascii_cells(&mut out, payload, i - i % WIDTH, i + 1);
            proof {
                reveal_strlit("| ");
                let group = payload@.subrange(WIDTH * line, i + 1);
                assert("| "@ =~= seq!['|', ' ']);
                assert(out@ =~= closed + dump_line(group));
                if i + 1 < len {
                    assert(payload@.subrange(WIDTH * (line + 1), i + 1) =~= Seq::<u8>::empty());
                    assert(out@ =~= dump_lines(payload@, (line + 1) as nat) + hex_cells(
                        payload@.subrange(WIDTH * (line + 1), i + 1),
                    ));
                }
            }
        }
        i += 1;
    }
    out
}

/// The report for one packet, from the texts of its endpoints and its
/// transport payload.
pub fn render_report(
    proto: &str,
    l3_source: &str,
    l4_source: &str,
    l3_destination: &str,
    l4_destination: &str,
    payload: &[u8],
) -> (text: String)
    ensures
        text@ == report(
            proto@,
            l3_source@,
            l4_source@,
            l3_destination@,
            l4_destination@,
            payload@,
        ),
{
    let mut out = String::new();
    out.append("Captured a ");
    out.append(proto);
    out.append(" packet from ");
    out.append(l3_source);
    out.push('|');
    out.append(l4_source);
    out.append(" to ");
    out.append(l3_destination);
    out.push('|');
    out.append(l4_destination);
    out.push('\n');
    out.push('\n');
    let body = hex_dump(payload);
    out.append(body.as_str());
    let mut j: usize = 0;
    let ghost head: Seq<char> = out@;
    while j < RULE_WIDTH
        invariant
            j <= RULE_WIDTH,
            out@ == head + Seq::new(j as nat, |i: int| '='),
        decreases RULE_WIDTH - j,
    {
        out.push('=');
        j += 1;
        assert(out@ =~= head + Seq::new(j as nat, |i: int| '='));
    }
    out.push('\n');
    out.push('\n');
    assert(out@ =~= report(
        proto@,
        l3_source@,
        l4_source@,
        l3_destination@,
        l4_destination@,
        payload@,
    ));
    out
}

/// The report for a packet whose network-layer header is `l3` and whose
/// transport-layer header is `l4`, under the protocol name `proto`.
///
/// The summary line pairs the address of `l3` with the port of `l4`, for
/// the source and for the destination; the dump shows the payload of `l4`.
pub fn print_packet_info<L3: GettableEndPoints, L4: GettableEndPoints>(
    l3: &L3,
    l4: &L4,
    proto: &str,
) -> (text: String)
    ensures
        text@ == report(
            proto@,
            l3.source_text(),
            l4.source_text(),
            l3.destination_text(),
            l4.destination_text(),
            l4.payload_bytes(),
        ),
{
    let l3_source = l3.get_source();
    let l4_source = l4.get_source();
    let l3_destination = l3.get_destination();
    let l4_destination = l4.get_destination();
    render_report(
        proto,
        l3_source.as_str(),
        l4_source.as_str(),
        l3_destination.as_str(),
        l4_destination.as_str(),
        l4.get_payload(),
    )
}

} // verus!
