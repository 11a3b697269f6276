use vstd::prelude::*;
use vstd::string::*;
use termion::clear;
use termion::color;
use termion::cursor;
use termion::style;
use crate::text::{decimal_of, lines, lemma_lines_nonempty, push_char, push_run, run};

verus! {

/// A control sequence introduced by ESC `[`.
pub open spec fn csi(p: Seq<char>) -> Seq<char> {
    seq!['\x1b', '['] + p
}

pub open spec fn reset_seq() -> Seq<char> {
    csi(seq!['m'])
}

pub open spec fn bold_seq() -> Seq<char> {
    csi(seq!['1', 'm'])
}

pub open spec fn yellow_seq() -> Seq<char> {
    csi(seq!['3', '8', ';', '5', ';', '3', 'm'])
}

pub open spec fn green_seq() -> Seq<char> {
    csi(seq!['3', '8', ';', '5', ';', '2', 'm'])
}

pub open spec fn clear_screen_seq() -> Seq<char> {
    csi(seq!['2', 'J'])
}

pub open spec fn clear_before_seq() -> Seq<char> {
    csi(seq!['1', 'J'])
}

pub open spec fn clear_after_seq() -> Seq<char> {
    csi(seq!['J'])
}

pub open spec fn show_seq() -> Seq<char> {
    csi(seq!['?', '2', '5', 'h'])
}

pub open spec fn hide_seq() -> Seq<char> {
    csi(seq!['?', '2', '5', 'l'])
}

/// Moves the cursor to column `x`, row `y` (one-based).
pub open spec fn goto_seq(x: nat, y: nat) -> Seq<char> {
    csi(decimal_of(y) + seq![';'] + decimal_of(x) + seq!['H'])
}

/// Relies on termion::style::Reset, which writes CSI `m`.
#[verifier::external_body]
fn reset_code() -> (r: String)
    ensures
        r@ == reset_seq(),
{
    style::Reset.to_string()
}

/// Relies on termion::style::Bold, which writes CSI `1m`.
#[verifier::external_body]
fn bold_code() -> (r: String)
    ensures
        r@ == bold_seq(),
{
    style::Bold.to_string()
}

/// Relies on termion::color::Yellow::fg_str, the foreground code CSI `38;5;3m`.
#[verifier::external_body]
fn yellow_code() -> (r: String)
    ensures
        r@ == yellow_seq(),
{
    color::Yellow.fg_str().to_string()
}

/// Relies on termion::color::Green::fg_str, the foreground code CSI `38;5;2m`.
#[verifier::external_body]
fn green_code() -> (r: String)
    ensures
        r@ == green_seq(),
{
    color::Green.fg_str().to_string()
}

/// Relies on termion::clear::All, which writes CSI `2J`.
#[verifier::external_body]
fn clear_screen_code() -> (r: String)
    ensures
        r@ == clear_screen_seq(),
{
    clear::All.to_string()
}

/// Relies on termion::clear::BeforeCursor, which writes CSI `1J`.
#[verifier::external_body]
fn clear_before_code() -> (r: String)
    ensures
        r@ == clear_before_seq(),
{
    clear::BeforeCursor.to_string()
}

/// Relies on termion::clear::AfterCursor, which writes CSI `J`.
#[verifier::external_body]
fn clear_after_code() -> (r: String)
    ensures
        r@ == clear_after_seq(),
{
    clear::AfterCursor.to_string()
}

/// Relies on termion::cursor::Show, which writes CSI `?25h`.
#[verifier::external_body]
fn show_code() -> (r: String)
    ensures
        r@ == show_seq(),
{
    cursor::Show.to_string()
}

/// Relies on termion::cursor::Hide, which writes CSI `?25l`.
#[verifier::external_body]
fn hide_code() -> (r: String)
    ensures
        r@ == hide_seq(),
{
    cursor::Hide.to_string()
}

/// Relies on termion's conversion of cursor::Goto into a String:
/// CSI, the row and the column in decimal separated by `;`, then `H`.
#[verifier::external_body]
fn goto_code(x: u16, y: u16) -> (r: String)
    ensures
        r@ == goto_seq(x as nat, y as nat),
{
    String::from(cursor::Goto(x, y))
}

/// Number of characters of `s` that show on screen when the scan starts inside
/// an escape sequence (`esc`) or not. An escape sequence runs from ESC up to and
/// including the next `m`.
pub open spec fn visible_from(s: Seq<char>, esc: bool) -> nat
    decreases s.len(),
{
    if s.len() == 0 {
        0
    } else if s[0] == '\x1b' {
        visible_from(s.drop_first(), true)
    } else if esc {
        visible_from(s.drop_first(), s[0] != 'm')
    } else {
        1 + visible_from(s.drop_first(), false)
    }
}

pub open spec fn visible_len(s: Seq<char>) -> nat {
    visible_from(s, false)
}

/// Number of characters of `input` that show on screen: SGR escape sequences
/// (ESC up to `m`) take no room.
pub fn visible_length(input: &str) -> (r: usize)
    ensures
        r == visible_len(input@),
{
    let n = input.unicode_len();
    let mut count: usize = 0;
    let mut in_escape = false;
    let mut i: usize = 0;
    assert(input@ =~= input@.subrange(0, n as int));
    while i < n
        invariant
            n == input@.len(),
            i <= n,
            count <= i,
            count + visible_from(input@.subrange(i as int, n as int), in_escape) == visible_len(
                input@,
            ),
        decreases n - i,
    {
        let c = input.get_char(i);
        proof {
            let rest = input@.subrange(i as int, n as int);
            assert(rest[0] == c);
            assert(rest.drop_first() =~= input@.subrange(i + 1, n as int));
        }
        if c == '\x1b' {
            in_escape = true;
        } else if in_escape && c == 'm' {
            in_escape = false;
        } else if !in_escape {
            count = count + 1;
        }
        i = i + 1;
    }
    count
}

/// `text` wrapped in `code` and a style reset.
pub open spec fn styled(code: Seq<char>, text: Seq<char>) -> Seq<char> {
    code + text + reset_seq()
}

/// `text` in the colour used for warnings and errors.
pub fn danger(text: String) -> (r: String)
    ensures
        r@ == styled(yellow_seq(), text@),
{
    let mut out = yellow_code();
    out.append(text.as_str());
    out.append(reset_code().as_str());
    out
}

/// `text` in the colour used for good news.
pub fn success(text: String) -> (r: String)
    ensures
        r@ == styled(green_seq(), text@),
{
    let mut out = green_code();
    out.append(text.as_str());
    out.append(reset_code().as_str());
    out
}

/// `text` in bold.
pub fn bold(text: String) -> (r: String)
    ensures
        r@ == styled(bold_seq(), text@),
{
    let mut out = bold_code();
    out.append(text.as_str());
    out.append(reset_code().as_str());
    out
}

/// Resets styling, clears the screen, shows the cursor and homes it.
pub fn clear_all() -> (r: String)
    ensures
        r@ == reset_seq() + clear_screen_seq() + show_seq() + goto_seq(1, 1),
{
    let mut out = reset_code();
    out.append(clear_screen_code().as_str());
    out.append(show_code().as_str());
    out.append(goto_code(1, 1).as_str());
    out
}

pub fn hide_cursor() -> (r: String)
    ensures
        r@ == hide_seq(),
{
    hide_code()
}

pub fn show_cursor() -> (r: String)
    ensures
        r@ == show_seq(),
{
    show_code()
}

/// Clears the screen up to column `x` of row `y`.
pub fn clear_before(x: u16, y: u16) -> (r: String)
    ensures
        r@ == goto_seq(x as nat, y as nat) + clear_before_seq(),
{
    let mut out = goto_code(x, y);
    out.append(clear_before_code().as_str());
    out
}

/// Clears the screen from column `x` of row `y` on.
pub fn clear_after(x: u16, y: u16) -> (r: String)
    ensures
        r@ == goto_seq(x as nat, y as nat) + clear_after_seq(),
{
    let mut out = goto_code(x, y);
    out.append(clear_after_code().as_str());
    out
}

/// Room left on a border line of `width` columns after both corners and a title
/// of `title_len` characters; none when the title does not fit.
pub open spec fn bar_room(width: nat, title_len: nat) -> nat {
    if width >= title_len + 2 {
        (width - title_len - 2) as nat
    } else {
        0
    }
}

/// The inside of a border line: the title centred in a run of `─`.
pub open spec fn border_bar(width: nat, title: Seq<char>) -> Seq<char> {
    let k = bar_room(width, title.len());
    run('─', k / 2) + title + run('─', (k - k / 2) as nat)
}

pub open spec fn top_border(width: nat, title: Seq<char>) -> Seq<char> {
    seq!['╭'] + border_bar(width, title) + seq!['╮', '\r', '\n']
}

pub open spec fn bottom_border(width: nat, title: Seq<char>) -> Seq<char> {
    seq!['╰'] + border_bar(width, title) + seq!['╯', '\r', '\n']
}

fn border_line(left: char, right: char, length: u16, title: String) -> (r: String)
    ensures
        r@ == seq![left] + border_bar(length as nat, title@) + seq![right, '\r', '\n'],
{
    let tl = title.as_str().unicode_len();
    let w = length as usize;
    let k: usize = if tl <= w && w - tl >= 2 {
        w - tl - 2
    } else {
        0
    };
    let mut out = String::new();
    push_char(&mut out, left);
    push_run(&mut out, '─', k / 2);
    out.append(title.as_str());
    push_run(&mut out, '─', k - k / 2);
    push_char(&mut out, right);
    push_char(&mut out, '\r');
    push_char(&mut out, '\n');
    assert(out@ =~= seq![left] + border_bar(length as nat, title@) + seq![right, '\r', '\n']);
    out
}

/// The top edge of a box `length` columns wide, with `title` in its middle.
pub fn title_border_top(length: u16, title: String) -> (r: String)
    ensures
        r@ == top_border(length as nat, title@),
{
    border_line('╭', '╮', length, title)
}

/// The bottom edge of a box `length` columns wide, with `title` in its middle.
pub fn title_border_bottom(length: u16, title: String) -> (r: String)
    ensures
        r@ == bottom_border(length as nat, title@),
{
    border_line('╰', '╯', length, title)
}

/// Spaces that fill a line showing `vis` characters up to the right border.
pub open spec fn pad_width(vis: nat, width: nat) -> nat {
    if vis + 1 >= width {
        0
    } else {
        (width - vis - 1) as nat
    }
}

/// One content line inside a box: padded and closed by the right border.
/// A line that shows nothing is kept as it is, with no border.
pub open spec fn framed_line(line: Seq<char>, width: nat) -> Seq<char> {
    if visible_len(line) == 0 {
        line
    } else {
        line + run(' ', pad_width(visible_len(line), width)) + seq!['│', '\r', '\n']
    }
}

pub open spec fn framed_lines(ls: Seq<Seq<char>>, width: nat) -> Seq<char>
    decreases ls.len(),
{
    if ls.len() == 0 {
        Seq::<char>::empty()
    } else {
        framed_lines(ls.drop_last(), width) + framed_line(ls.last(), width)
    }
}

/// `content` framed in a box `width` columns wide, `title` on top and
/// `title_bottom` below.
pub open spec fn bordered_text(
    content: Seq<char>,
    title: Seq<char>,
    title_bottom: Seq<char>,
    width: nat,
) -> Seq<char> {
    top_border(width, title) + framed_lines(lines(content), width) + bottom_border(
        width,
        title_bottom,
    )
}

fn push_framed(out: &mut String, line: &str, width: u16)
    ensures
        final(out)@ == old(out)@ + framed_line(line@, width as nat),
{
    out.append(line);
    let vis = visible_length(line);
    if vis == 0 {
        return ;
    }
    let w = width as usize;
    let pad: usize = if w == 0 || vis >= w - 1 {
        0
    } else {
        w - vis - 1
    };
    push_run(out, ' ', pad);
    push_char(out, '│');
    push_char(out, '\r');
    push_char(out, '\n');
    assert(final(out)@ =~= old(out)@ + framed_line(line@, width as nat));
}

/// Frames each line of `content` in a box of `width` columns; the width of a
/// line is measured without its escape sequences.
pub fn bordered(content: String, title: String, title_bottom: String, width: u16) -> (r: String)
    ensures
        r@ == bordered_text(content@, title@, title_bottom@, width as nat),
{
    let mut out = title_border_top(width, title);
    let ghost top = out@;
    let text = content.as_str();
    let n = text.unicode_len();
    let mut line = String::new();
    let mut i: usize = 0;
    assert(content@.take(0) =~= Seq::<char>::empty());
    while i < n
        invariant
            n == content@.len(),
            text@ == content@,
            i <= n,
            out@ == top + framed_lines(lines(content@.take(i as int)).drop_last(), width as nat),
            line@ == lines(content@.take(i as int)).last(),
        decreases n - i,
    {
        let c = text.get_char(i);
        proof {
            let t = content@.take(i as int);
            let t1 = content@.take(i + 1);
            assert(t1.drop_last() =~= t);
            assert(t1.last() == c);
            lemma_lines_nonempty(t);
            let ls = lines(t);
            if c != '\n' {
                assert(lines(t1).drop_last() =~= ls.drop_last());
            } else {
                assert(lines(t1).drop_last() =~= ls);
            }
        }
        if c == '\n' {
            push_framed(&mut out, line.as_str(), width);
            line = String::new();
        } else {
            push_char(&mut line, c);
        }
        i = i + 1;
    }
    proof {
        assert(content@.take(n as int) =~= content@);
        lemma_lines_nonempty(content@);
    }
    push_framed(&mut out, line.as_str(), width);
    out.append(title_border_bottom(width, title_bottom).as_str());
    out
}

/// Row `y + i`, held at the last row a terminal can address.
pub open spec fn row_at(y: nat, i: nat) -> nat {
    if y + i > 65535 {
        65535
    } else {
        y + i
    }
}

/// Each line of `ls` drawn from column `x`, the first at row `y` and each next
/// one a row lower.
pub open spec fn positioned(ls: Seq<Seq<char>>, x: nat, y: nat) -> Seq<char>
    decreases ls.len(),
{
    if ls.len() == 0 {
        Seq::<char>::empty()
    } else {
        positioned(ls.drop_last(), x, y) + goto_seq(x, row_at(y, (ls.len() - 1) as nat))
            + ls.last()
    }
}

pub open spec fn position_text(content: Seq<char>, x: nat, y: nat) -> Seq<char> {
    positioned(lines(content), x, y)
}

fn push_at(out: &mut String, line: &str, x: u16, y: u16, i: usize)
    ensures
        final(out)@ == old(out)@ + goto_seq(x as nat, row_at(y as nat, i as nat)) + line@,
{
    let row: u16 = if i > 65535 || (y as usize) + i > 65535 {
        65535
    } else {
        (y as usize + i) as u16
    };
    out.append(goto_code(x, row).as_str());
    out.append(line);
}

/// Places the lines of `content` on screen from column `x`, row `y` down.
pub fn position(content: String, x: u16, y: u16) -> (r: String)
    ensures
        r@ == position_text(content@, x as nat, y as nat),
{
    let mut out = String::new();
    let text = content.as_str();
    let n = text.unicode_len();
    let mut line = String::new();
    let mut counter: usize = 0;
    let mut i: usize = 0;
    assert(content@.take(0) =~= Seq::<char>::empty());
    while i < n
        invariant
            n == content@.len(),
            text@ == content@,
            i <= n,
            counter <= i,
            counter + 1 == lines(content@.take(i as int)).len(),
            out@ == positioned(lines(content@.take(i as int)).drop_last(), x as nat, y as nat),
            line@ == lines(content@.take(i as int)).last(),
        decreases n - i,
    {
        let c = text.get_char(i);
        proof {
            let t = content@.take(i as int);
            let t1 = content@.take(i + 1);
            assert(t1.drop_last() =~= t);
            assert(t1.last() == c);
            lemma_lines_nonempty(t);
            let ls = lines(t);
            if c != '\n' {
                assert(lines(t1).drop_last() =~= ls.drop_last());
            } else {
                assert(lines(t1).drop_last() =~= ls);
            }
        }
        if c == '\n' {
            push_at(&mut out, line.as_str(), x, y, counter);
            line = String::new();
            counter = counter + 1;
        } else {
            push_char(&mut line, c);
        }
        i = i + 1;
    }
    proof {
        assert(content@.take(n as int) =~= content@);
        lemma_lines_nonempty(content@);
    }
    push_at(&mut out, line.as_str(), x, y, counter);
    out
}

/// One more than `v`, held at the last row or column a terminal can address.
pub open spec fn next_cell(v: nat) -> nat {
    if v >= 65535 {
        65535
    } else {
        v + 1
    }
}

/// A text entry box 50 columns wide with `name` in its top edge.
pub open spec fn input_box(name: Seq<char>) -> Seq<char> {
    seq!['╭'] + name + run('─', if name.len() <= 48 { (48 - name.len()) as nat } else { 0 })
        + seq!['╮', '\r', '\n', '│'] + run(' ', 48) + seq!['│', '\r', '\n', '╰'] + run('─', 48)
        + seq!['╯']
}

/// A text entry box at column `x`, row `y`, with the cursor shown inside it.
pub fn input(name: &str, x: u16, y: u16) -> (r: String)
    ensures
        r@ == position_text(show_seq() + input_box(name@), x as nat, y as nat) + goto_seq(
            next_cell(x as nat),
            next_cell(y as nat),
        ),
{
    let mut out = show_code();
    let nl = name.unicode_len();
    push_char(&mut out, '╭');
    out.append(name);
    push_run(
        &mut out,
        '─',
        if nl <= 48 {
            48 - nl
        } else {
            0
        },
    );
    push_char(&mut out, '╮');
    push_char(&mut out, '\r');
    push_char(&mut out, '\n');
    push_char(&mut out, '│');
    push_run(&mut out, ' ', 48);
    push_char(&mut out, '│');
    push_char(&mut out, '\r');
    push_char(&mut out, '\n');
    push_char(&mut out, '╰');
    push_run(&mut out, '─', 48);
    push_char(&mut out, '╯');
    assert(out@ =~= show_seq() + input_box(name@));
    let mut placed = position(out, x, y);
    let cx: u16 = if x == 65535 {
        x
    } else {
        x + 1
    };
    let cy: u16 = if y == 65535 {
        y
    } else {
        y + 1
    };
    placed.append(goto_code(cx, cy).as_str());
    placed
}

} // verus!
