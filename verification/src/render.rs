//! Rendering the resolved record as one banner block.
//!
//! The block layout is fixed: a title line, a separator line, then one
//! `label: value` line per field in the fixed order OS, Host, Kernel,
//! Uptime, Shell, Resolution, DE, CPU, Memory. The title, separator and
//! labels are colorized through the `colored` crate; whether escape codes
//! are actually emitted depends on that crate's runtime colorization
//! switch, so each painted piece is specified as either the plain text or
//! the text wrapped in the one fixed escape sequence pair.

use colored::Colorize;
use vstd::prelude::*;
use vstd::string::StrSliceExecFns;
use vstd::string::StringExecFns;

use crate::info::Info;

verus! {

/// The ANSI reset sequence that ends every styled piece.
pub open spec fn csi_reset() -> Seq<char> {
    seq!['\u{1b}', '[', '0', 'm']
}

/// The ANSI prefix for blue foreground text.
pub open spec fn csi_blue() -> Seq<char> {
    seq!['\u{1b}', '[', '3', '4', 'm']
}

/// The ANSI prefix for bold blue foreground text.
pub open spec fn csi_blue_bold() -> Seq<char> {
    seq!['\u{1b}', '[', '1', ';', '3', '4', 'm']
}

/// The ANSI prefix for bold red foreground text.
pub open spec fn csi_red_bold() -> Seq<char> {
    seq!['\u{1b}', '[', '1', ';', '3', '1', 'm']
}

/// Whether `s` contains the ANSI reset sequence. The `colored` crate
/// rewrites such input when styling it, so nothing is claimed of a painted
/// piece whose text contains a reset.
pub open spec fn contains_reset(s: Seq<char>) -> bool {
    exists|i: int| 0 <= i && i + 4 <= s.len() && #[trigger] s.subrange(i, i + 4) == csi_reset()
}

/// What holds of a painted piece `r` with plain text `s` and style prefix
/// `style`: the crate either leaves the text plain (colorization off) or
/// wraps it in the style prefix and a reset; only text that itself holds a
/// reset sequence is rewritten beyond that.
pub open spec fn painted(r: Seq<char>, s: Seq<char>, style: Seq<char>) -> bool {
    r == s || r == style + s + csi_reset() || contains_reset(s)
}

/// Relies on `colored::Colorize::blue` and the `Display` impl of
/// `ColoredString`: the output is the input unchanged when colorization is
/// off, and otherwise the input wrapped in `ESC[34m` and `ESC[0m`, with
/// reset sequences inside the input escaped.
#[verifier::external_body]
fn paint_blue(s: &str) -> (r: String)
    ensures
        painted(r@, s@, csi_blue()),
{
    format!("{}", s.blue())
}

/// Relies on `colored::Colorize::blue` and `bold`, and the `Display` impl
/// of `ColoredString`: the output is the input unchanged when colorization
/// is off, and otherwise the input wrapped in `ESC[1;34m` and `ESC[0m`,
/// with reset sequences inside the input escaped.
#[verifier::external_body]
fn paint_blue_bold(s: &str) -> (r: String)
    ensures
        painted(r@, s@, csi_blue_bold()),
{
    format!("{}", s.blue().bold())
}

/// Relies on `colored::Colorize::red` and `bold`, and the `Display` impl
/// of `ColoredString`: the output is the input unchanged when colorization
/// is off, and otherwise the input wrapped in `ESC[1;31m` and `ESC[0m`,
/// with reset sequences inside the input escaped.
#[verifier::external_body]
fn paint_red_bold(s: &str) -> (r: String)
    ensures
        painted(r@, s@, csi_red_bold()),
{
    format!("{}", s.red().bold())
}

/// The separator line's plain text.
pub open spec fn sep_text() -> Seq<char> {
    "-------------------------------"@
}

/// The painted pieces of the banner: the title, the separator, and one
/// label per field.
pub struct Decor {
    /// Painted title line content.
    pub title: String,
    /// Painted separator line.
    pub sep: String,
    /// Painted OS label.
    pub os: String,
    /// Painted host label.
    pub host: String,
    /// Painted kernel label.
    pub kernel: String,
    /// Painted uptime label.
    pub uptime: String,
    /// Painted shell label.
    pub shell: String,
    /// Painted resolution label.
    pub resolution: String,
    /// Painted desktop-environment label.
    pub de: String,
    /// Painted CPU label.
    pub cpu: String,
    /// Painted memory label.
    pub memory: String,
}

/// What a decoration of the record `i` is: the title is the painted
/// user-and-host line, the separator the painted dash line, and each label
/// the painted fixed label text, in the crate's fixed styles.
pub open spec fn decorated(d: Decor, i: Info) -> bool {
    painted(d.title@, i.current_user_host@, csi_blue()) && painted(d.sep@, sep_text(), csi_red_bold())
        && painted(d.os@, "OS"@, csi_blue_bold()) && painted(d.host@, "Host"@, csi_blue_bold())
        && painted(d.kernel@, "Kernel"@, csi_blue_bold()) && painted(
        d.uptime@,
        "Uptime"@,
        csi_blue_bold(),
    ) && painted(d.shell@, "Shell"@, csi_blue_bold()) && painted(
        d.resolution@,
        "Resolution"@,
        csi_blue_bold(),
    ) && painted(d.de@, "DE"@, csi_blue_bold()) && painted(d.cpu@, "CPU"@, csi_blue_bold())
        && painted(d.memory@, "Memory"@, csi_blue_bold())
}

/// One field line of the block: indentation, the (painted) label, a colon
/// and space, then the value.
pub open spec fn line_text(label: Seq<char>, value: Seq<char>) -> Seq<char> {
    "\n            "@ + label + ": "@ + value
}

/// The full banner block built from painted pieces `d` and record `i`: the
/// title line, the separator line, then the field lines in the fixed order
/// OS, Host, Kernel, Uptime, Shell, Resolution, DE, CPU, Memory.
pub open spec fn block_text(d: Decor, i: Info) -> Seq<char> {
    "\n             "@ + d.title@ + "\n            "@ + d.sep@ + line_text(d.os@, i.os@)
        + line_text(d.host@, i.host@) + line_text(d.kernel@, i.kernel@) + line_text(
        d.uptime@,
        i.uptime@,
    ) + line_text(d.shell@, i.shell@) + line_text(d.resolution@, i.resolution@) + line_text(
        d.de@,
        i.de@,
    ) + line_text(d.cpu@, i.cpu@) + line_text(d.memory@, i.memory@) + "\n            \n"@
}

/// Appends one field line to the block being built.
fn push_line(out: &mut String, label: &str, value: &str)
    ensures
        final(out)@ == old(out)@ + line_text(label@, value@),
{
    out.append("\n            ");
    out.append(label);
    out.append(": ");
    out.append(value);
    proof {
        assert(out@ =~= old(out)@ + line_text(label@, value@));
    }
}

impl Info {
    /// Paints the title, the separator and the labels in the banner's
    /// fixed styles: blue for the title, bold red for the separator, bold
    /// blue for every label.
    pub fn decorate(&self) -> (d: Decor)
        ensures
            decorated(d, *self),
    {
        Decor {
            title: paint_blue(self.current_user_host.as_str()),
            sep: paint_red_bold("-------------------------------"),
            os: paint_blue_bold("OS"),
            host: paint_blue_bold("Host"),
            kernel: paint_blue_bold("Kernel"),
            uptime: paint_blue_bold("Uptime"),
            shell: paint_blue_bold("Shell"),
            resolution: paint_blue_bold("Resolution"),
            de: paint_blue_bold("DE"),
            cpu: paint_blue_bold("CPU"),
            memory: paint_blue_bold("Memory"),
        }
    }

    /// Lays the record out as the banner block, with the given pieces in
    /// place of the title, separator and labels. The result is pinned
    /// exactly: this is the whole layout, verified for every decoration.
    pub fn render_with(&self, d: &Decor) -> (r: String)
        ensures
            r@ == block_text(*d, *self),
    {
        let mut out = String::new();
        out.append("\n             ");
        out.append(d.title.as_str());
        out.append("\n            ");
        out.append(d.sep.as_str());
        proof {
            assert(out@ =~= "\n             "@ + d.title@ + "\n            "@ + d.sep@);
        }
        push_line(&mut out, d.os.as_str(), self.os.as_str());
        push_line(&mut out, d.host.as_str(), self.host.as_str());
        push_line(&mut out, d.kernel.as_str(), self.kernel.as_str());
        push_line(&mut out, d.uptime.as_str(), self.uptime.as_str());
        push_line(&mut out, d.shell.as_str(), self.shell.as_str());
        push_line(&mut out, d.resolution.as_str(), self.resolution.as_str());
        push_line(&mut out, d.de.as_str(), self.de.as_str());
        push_line(&mut out, d.cpu.as_str(), self.cpu.as_str());
        push_line(&mut out, d.memory.as_str(), self.memory.as_str());
        out.append("\n            \n");
        proof {
            assert(out@ =~= block_text(*d, *self));
        }
        out
    }

    /// The rendered banner: the block over some decoration of this record,
    /// as [`decorated`] states it — each piece plain or wrapped in its
    /// fixed escape sequence pair, the layout pinned by [`block_text`].
    pub fn display(&self) -> (r: String)
        ensures
            exists|d: Decor| #[trigger] decorated(d, *self) && r@ == block_text(d, *self),
    {
        let d = self.decorate();
        let r = self.render_with(&d);
        proof {
            assert(decorated(d, *self) && r@ == block_text(d, *self));
        }
        r
    }
}

} // verus!
