//! Human-readable rendering of a decoded manifest, one line per entry, for
//! the operator log.

use vstd::prelude::*;
use vstd::string::StringExecFns;
use crate::model::{BitstreamManifest, ExternalPLLConfig, MemoryRegion};

verus! {

/// The digit of value `d` (below 16), in lower case.
pub open spec fn digit_char(d: nat) -> char {
    if d < 10 {
        ((d + 48) as u8) as char
    } else {
        ((d + 87) as u8) as char
    }
}

/// The hexadecimal digits of `n`, most significant first, without leading zeros.
pub open spec fn hex_digits(n: nat) -> Seq<char>
    decreases n,
{
    if n < 16 {
        seq![digit_char(n)]
    } else {
        hex_digits(n / 16).push(digit_char(n % 16))
    }
}

/// The decimal digits of `n`, most significant first, without leading zeros.
pub open spec fn dec_digits(n: nat) -> Seq<char>
    decreases n,
{
    if n < 10 {
        seq![digit_char(n)]
    } else {
        dec_digits(n / 10).push(digit_char(n % 10))
    }
}

/// `n` in hexadecimal with a `0x` prefix, as `{:#x}` renders it.
pub open spec fn hex_text(n: nat) -> Seq<char> {
    "0x"@ + hex_digits(n)
}

/// `n` in decimal.
pub open spec fn dec_text(n: nat) -> Seq<char> {
    dec_digits(n)
}

/// An optional number as `{:?}` renders it: `Some(n)` or `None`.
pub open spec fn opt_text(v: Option<u32>) -> Seq<char> {
    match v {
        Some(n) => "Some("@ + dec_text(n as nat) + ")"@,
        None => "None"@,
    }
}

/// A boolean as `{:?}` renders it.
pub open spec fn bool_text(b: bool) -> Seq<char> {
    if b {
        "true"@
    } else {
        "false"@
    }
}

/// The lines for region number `i`.
pub open spec fn region_lines(r: MemoryRegion, i: nat) -> Seq<Seq<char>> {
    seq!["\tmemory_region["@ + dec_text(i) + "] = {"@, "\t\tfilename:     '"@ + r.filename@ + "'"@]
        + seq![match r.spiflash_src {
            Some(src) => "\t\tspiflash_src: "@ + hex_text(src as nat),
            None => "\t\tspiflash_src: None"@,
        }]
        + match r.psram_dst {
            Some(dst) => seq!["\t\tpsram_dst:    "@ + hex_text(dst as nat) + " (copyto)"@],
            None => Seq::empty(),
        }
        + seq!["\t\tsize:         "@ + hex_text(r.size as nat)]
        + match r.crc {
            Some(crc) => seq!["\t\tcrc:          "@ + hex_text(crc as nat)],
            None => Seq::empty(),
        }
        + seq!["\t}"@]
}

/// The lines for all of `rs`, numbered from zero, in order.
pub open spec fn regions_lines(rs: Seq<MemoryRegion>) -> Seq<Seq<char>>
    decreases rs.len(),
{
    if rs.len() == 0 {
        Seq::empty()
    } else {
        regions_lines(rs.drop_last()) + region_lines(rs.last(), (rs.len() - 1) as nat)
    }
}

/// The lines for the clock configuration; `spread` is the rendering of its
/// spread-spectrum depth.
pub open spec fn pll_lines(c: ExternalPLLConfig, spread: Seq<char>) -> Seq<Seq<char>> {
    seq![
        "\texternal_pll_config = {"@,
        "\t\tclk0_hz: "@ + dec_text(c.clk0_hz as nat),
        "\t\tclk1_hz: "@ + opt_text(c.clk1_hz),
        "\t\tclk1_inherit: "@ + bool_text(c.clk1_inherit),
        "\t\tspread_spectrum: "@ + spread,
        "\t}"@,
    ]
}

/// The lines for the help text of `m`, if it has one: its brief and video
/// fields only.
pub open spec fn help_lines(m: BitstreamManifest) -> Seq<Seq<char>> {
    match m.help {
        Some(h) => seq![
            "\thelp = {"@,
            "\t\tbrief:   '"@ + h.brief@ + "'"@,
            "\t\tvideo:   '"@ + h.video@ + "'"@,
            "\t}"@,
        ],
        None => Seq::empty(),
    }
}

/// The lines for the clock configuration of `m`, if it has one.
pub open spec fn clock_lines(m: BitstreamManifest, spread: Seq<char>) -> Seq<Seq<char>> {
    match m.external_pll_config {
        Some(c) => pll_lines(c, spread),
        None => Seq::empty(),
    }
}

/// The lines of the rendering of `m` up to, not including, its regions.
pub open spec fn head_lines(m: BitstreamManifest, spread: Seq<char>) -> Seq<Seq<char>> {
    seq![
        "BitstreamManifest {"@,
        "\tmagic:    "@ + hex_text(m.magic as nat),
        "\thw_rev:   "@ + dec_text(m.hw_rev as nat),
        "\tname:    '"@ + m.name@ + "'"@,
        "\ttag:     '"@ + m.tag@ + "'"@,
    ] + help_lines(m) + clock_lines(m, spread)
}

/// The full rendering of `m`, one entry per line.
pub open spec fn dump_text(m: BitstreamManifest, spread: Seq<char>) -> Seq<Seq<char>> {
    head_lines(m, spread) + regions_lines(m.regions@) + seq!["}"@]
}

/// The text of each line.
pub open spec fn lines_view(v: Seq<String>) -> Seq<Seq<char>> {
    v.map_values(|l: String| l@)
}

/// Relies on std's `String::push`: appends one character.
#[verifier::external_body]
fn push_char(s: &mut String, c: char)
    ensures
        final(s)@ == old(s)@.push(c),
{
    s.push(c)
}

fn digit_char_of(d: u64) -> (c: char)
    requires
        d < 16,
    ensures
        c == digit_char(d as nat),
{
    if d < 10 {
        ((d + 48) as u8) as char
    } else {
        ((d + 87) as u8) as char
    }
}

fn push_hex_digits(s: &mut String, n: u64)
    ensures
        final(s)@ == old(s)@ + hex_digits(n as nat),
    decreases n,
{
    let ghost s0 = s@;
    if n >= 16 {
        push_hex_digits(s, n / 16);
    }
    push_char(s, digit_char_of(n % 16));
    assert(s@ =~= s0 + hex_digits(n as nat));
}

fn push_dec_digits(s: &mut String, n: u64)
    ensures
        final(s)@ == old(s)@ + dec_digits(n as nat),
    decreases n,
{
    let ghost s0 = s@;
    if n >= 10 {
        push_dec_digits(s, n / 10);
    }
    push_char(s, digit_char_of(n % 10));
    assert(s@ =~= s0 + dec_digits(n as nat));
}

fn hex_line(prefix: &str, n: u32) -> (r: String)
    ensures
        r@ == prefix@ + hex_text(n as nat),
{
    let mut s = prefix.to_owned();
    s.append("0x");
    push_hex_digits(&mut s, n as u64);
    s
}

fn dec_line(prefix: &str, n: u64) -> (r: String)
    ensures
        r@ == prefix@ + dec_text(n as nat),
{
    let mut s = prefix.to_owned();
    push_dec_digits(&mut s, n);
    s
}

fn quoted_line(prefix: &str, text: &String) -> (r: String)
    ensures
        r@ == prefix@ + text@ + "'"@,
{
    let mut s = prefix.to_owned();
    s.append(text.as_str());
    s.append("'");
    s
}

fn emit(out: &mut Vec<String>, line: String)
    ensures
        lines_view(final(out)@) == lines_view(old(out)@).push(line@),
{
    out.push(line);
    assert(lines_view(out@) =~= lines_view(old(out)@).push(line@));
}

fn emit_text(out: &mut Vec<String>, text: &str)
    ensures
        lines_view(final(out)@) == lines_view(old(out)@).push(text@),
{
    emit(out, text.to_owned());
}

fn emit_region(out: &mut Vec<String>, r: &MemoryRegion, i: usize)
    ensures
        lines_view(final(out)@) == lines_view(old(out)@) + region_lines(*r, i as nat),
{
    let ghost before = lines_view(out@);
    let mut head = dec_line("\tmemory_region[", i as u64);
    head.append("] = {");
    emit(out, head);
    emit(out, quoted_line("\t\tfilename:     '", &r.filename));
    match r.spiflash_src {
        Some(src) => emit(out, hex_line("\t\tspiflash_src: ", src)),
        None => emit_text(out, "\t\tspiflash_src: None"),
    }
    let ghost mid = lines_view(out@);
    if let Some(dst) = r.psram_dst {
        let mut l = hex_line("\t\tpsram_dst:    ", dst);
        l.append(" (copyto)");
        emit(out, l);
    }
    emit(out, hex_line("\t\tsize:         ", r.size));
    if let Some(crc) = r.crc {
        emit(out, hex_line("\t\tcrc:          ", crc));
    }
    emit_text(out, "\t}");
    assert(lines_view(out@) =~= before + region_lines(*r, i as nat));
}

impl BitstreamManifest {
    /// The human-readable rendering of this manifest, one entry per line:
    /// magic (hexadecimal), hardware revision, name, tag, the help text's brief
    /// and video fields when there is help, the clock configuration when there
    /// is one, and a block for each region in order. `spread_spectrum` is the
    /// text that stands for the clock configuration's spread-spectrum depth.
    pub fn dump_lines(&self, spread_spectrum: &str) -> (r: Vec<String>)
        ensures
            lines_view(r@) == dump_text(*self, spread_spectrum@),
    {
        let mut out: Vec<String> = Vec::new();
        proof {
            assert(lines_view(out@) =~= Seq::<Seq<char>>::empty());
        }
        emit_text(&mut out, "BitstreamManifest {");
        emit(&mut out, hex_line("\tmagic:    ", self.magic));
        emit(&mut out, dec_line("\thw_rev:   ", self.hw_rev as u64));
        emit(&mut out, quoted_line("\tname:    '", &self.name));
        emit(&mut out, quoted_line("\ttag:     '", &self.tag));
        let ghost top = lines_view(out@);
        if let Some(help) = &self.help {
            emit_text(&mut out, "\thelp = {");
            emit(&mut out, quoted_line("\t\tbrief:   '", &help.brief));
            emit(&mut out, quoted_line("\t\tvideo:   '", &help.video));
            emit_text(&mut out, "\t}");
        }
        let ghost with_help = lines_view(out@);
        if let Some(clocks) = &self.external_pll_config {
            emit_text(&mut out, "\texternal_pll_config = {");
            emit(&mut out, dec_line("\t\tclk0_hz: ", clocks.clk0_hz as u64));
            let mut l = "\t\tclk1_hz: ".to_owned();
            match clocks.clk1_hz {
                Some(hz) => {
                    l.append("Some(");
                    push_dec_digits(&mut l, hz as u64);
                    l.append(")");
                },
                None => l.append("None"),
            }
            assert(l@ =~= "\t\tclk1_hz: "@ + opt_text(clocks.clk1_hz));
            emit(&mut out, l);
            let mut l = "\t\tclk1_inherit: ".to_owned();
            if clocks.clk1_inherit {
                l.append("true");
            } else {
                l.append("false");
            }
            assert(l@ =~= "\t\tclk1_inherit: "@ + bool_text(clocks.clk1_inherit));
            emit(&mut out, l);
            let mut l = "\t\tspread_spectrum: ".to_owned();
            l.append(spread_spectrum);
            emit(&mut out, l);
            emit_text(&mut out, "\t}");
        }
        proof {
            assert(with_help =~= top + help_lines(*self));
            assert(lines_view(out@) =~= with_help + clock_lines(*self, spread_spectrum@));
            assert(lines_view(out@) =~= head_lines(*self, spread_spectrum@));
        }
        let mut i: usize = 0;
        while i < self.regions.len()
            invariant
                i <= self.regions@.len(),
                lines_view(out@) == head_lines(*self, spread_spectrum@)
                    + regions_lines(self.regions@.subrange(0, i as int)),
            decreases self.regions@.len() - i,
        {
            let ghost done = self.regions@.subrange(0, i as int);
            let ghost next = self.regions@.subrange(0, i + 1);
            emit_region(&mut out, &self.regions[i], i);
            proof {
                assert(next.drop_last() =~= done);
                assert(next.last() == self.regions@[i as int]);
                assert(lines_view(out@) =~= head_lines(*self, spread_spectrum@) + regions_lines(next));
            }
            i = i + 1;
        }
        assert(self.regions@.subrange(0, i as int) =~= self.regions@);
        emit_text(&mut out, "}");
        assert(lines_view(out@) =~= dump_text(*self, spread_spectrum@));
        out
    }
}

} // verus!
