//! The font descriptor and its text form: one directive on each line, in a
//! fixed order.

use vstd::prelude::*;
use vstd::string::*;
use crate::decimal::{decimal, push_decimal};
use crate::glyph::GlyphRecord;

verus! {

/// The descriptor as mathematics.
pub struct DescriptorView {
    pub face: Seq<char>,
    pub size: nat,
    pub line_height: nat,
    pub scale_w: nat,
    pub scale_h: nat,
    pub file: Seq<char>,
    pub glyphs: Seq<GlyphRecord>,
}

/// All that the text form of a font says. The kerning table is always
/// empty, so it is not stored.
pub struct FontDescriptor {
    /// The name of the face.
    pub face: String,
    /// The point size: the width of a tile.
    pub size: u32,
    /// The line height: the height of a tile.
    pub line_height: u32,
    /// The width of the page, which is the image.
    pub scale_w: u32,
    /// The height of the page.
    pub scale_h: u32,
    /// Where a renderer finds the image.
    pub file: String,
    /// One record for each tile, in reading order.
    pub glyphs: Vec<GlyphRecord>,
}

impl View for FontDescriptor {
    type V = DescriptorView;

    open spec fn view(&self) -> DescriptorView {
        DescriptorView {
            face: self.face@,
            size: self.size as nat,
            line_height: self.line_height as nat,
            scale_w: self.scale_w as nat,
            scale_h: self.scale_h as nat,
            file: self.file@,
            glyphs: self.glyphs@,
        }
    }
}

/// The `info` line.
pub open spec fn info_line(face: Seq<char>, size: nat) -> Seq<char> {
    "info face=\""@ + face + "\" size="@ + decimal(size)
        + " bold=0 italic=0 unicode=1 stretchH=100 smooth=1 aa=0 padding=0,0,0,0 spacing=0,0"@
}

/// The `common` line.
pub open spec fn common_line(line_height: nat, scale_w: nat, scale_h: nat) -> Seq<char> {
    "common lineHeight="@ + decimal(line_height) + " base=0 scaleW="@ + decimal(scale_w)
        + " scaleH="@ + decimal(scale_h) + " pages=1 packed=0"@
}

/// The `page` line.
pub open spec fn page_line(file: Seq<char>) -> Seq<char> {
    "page id=0 file=\""@ + file + "\""@
}

/// The `chars` line.
pub open spec fn chars_line(count: nat) -> Seq<char> {
    "chars count="@ + decimal(count)
}

/// The `char` line of one glyph. The height is written as 8 whatever the
/// record holds: readers of this format were built against that value.
pub open spec fn char_line(glyph: GlyphRecord) -> Seq<char> {
    "char id="@ + decimal(glyph.id as nat) + " x="@ + decimal(glyph.x as nat) + " y="@ + decimal(
        glyph.y as nat,
    ) + " width="@ + decimal(glyph.width as nat) + " height=8 xoffset=0 yoffset=0 xadvance="@
        + decimal(glyph.width as nat) + " page=0 chnl=0"@
}

/// The `kernings` line.
pub open spec fn kernings_line() -> Seq<char> {
    "kernings count=0"@
}

/// The `char` lines of the glyphs, in their order.
pub open spec fn char_lines(glyphs: Seq<GlyphRecord>) -> Seq<Seq<char>> {
    Seq::new(glyphs.len(), |i: int| char_line(glyphs[i]))
}

/// The lines, each followed by a line feed.
pub open spec fn join_lines(lines: Seq<Seq<char>>) -> Seq<char>
    decreases lines.len(),
{
    if lines.len() == 0 {
        Seq::empty()
    } else {
        join_lines(lines.drop_last()) + lines.last() + "\n"@
    }
}

impl DescriptorView {
    /// The four lines before the glyphs.
    pub open spec fn head(self) -> Seq<Seq<char>> {
        seq![
            info_line(self.face, self.size),
            common_line(self.line_height, self.scale_w, self.scale_h),
            page_line(self.file),
            chars_line(self.glyphs.len()),
        ]
    }

    /// All lines of the text form.
    pub open spec fn lines(self) -> Seq<Seq<char>> {
        self.head() + char_lines(self.glyphs) + seq![kernings_line()]
    }

    /// The text form.
    pub open spec fn text(self) -> Seq<char> {
        join_lines(self.lines())
    }
}

/// Joining one more line appends it and a line feed.
pub proof fn lemma_join_push(lines: Seq<Seq<char>>, line: Seq<char>)
    ensures
        join_lines(lines.push(line)) == join_lines(lines) + line + "\n"@,
{
    assert(lines.push(line).drop_last() =~= lines);
}

/// The text form has four lines, then one `char` line for each glyph in
/// order, then the `kernings` line.
pub proof fn lemma_line_layout(d: DescriptorView)
    ensures
        d.lines().len() == d.glyphs.len() + 5,
        d.lines()[0] == info_line(d.face, d.size),
        d.lines()[1] == common_line(d.line_height, d.scale_w, d.scale_h),
        d.lines()[2] == page_line(d.file),
        d.lines()[3] == chars_line(d.glyphs.len()),
        forall|i: int| 0 <= i < d.glyphs.len() ==> #[trigger] d.lines()[4 + i] == char_line(d.glyphs[i]),
        d.lines().last() == kernings_line(),
{
}

fn push_char_line(out: &mut String, glyph: &GlyphRecord)
    ensures
        final(out)@ == old(out)@ + char_line(*glyph) + "\n"@,
{
    out.append("char id=");
    push_decimal(out, glyph.id as u64);
    out.append(" x=");
    push_decimal(out, glyph.x as u64);
    out.append(" y=");
    push_decimal(out, glyph.y as u64);
    out.append(" width=");
    push_decimal(out, glyph.width);
    out.append(" height=8 xoffset=0 yoffset=0 xadvance=");
    push_decimal(out, glyph.width);
    out.append(" page=0 chnl=0");
    out.append("\n");
    assert(out@ =~= old(out)@ + char_line(*glyph) + "\n"@);
}

impl FontDescriptor {
    fn push_head(&self, out: &mut String)
        requires
            old(out)@.len() == 0,
        ensures
            final(out)@ == join_lines(self@.head()),
    {
        out.append("info face=\"");
        out.append(self.face.as_str());
        out.append("\" size=");
        push_decimal(out, self.size as u64);
        out.append(
            " bold=0 italic=0 unicode=1 stretchH=100 smooth=1 aa=0 padding=0,0,0,0 spacing=0,0",
        );
        out.append("\n");
        let ghost one = out@;
        out.append("common lineHeight=");
        push_decimal(out, self.line_height as u64);
        out.append(" base=0 scaleW=");
        push_decimal(out, self.scale_w as u64);
        out.append(" scaleH=");
        push_decimal(out, self.scale_h as u64);
        out.append(" pages=1 packed=0");
        out.append("\n");
        let ghost two = out@;
        out.append("page id=0 file=\"");
        out.append(self.file.as_str());
        out.append("\"");
        out.append("\n");
        let ghost three = out@;
        out.append("chars count=");
        push_decimal(out, self.glyphs.len() as u64);
        out.append("\n");
        proof {
            let head = self@.head();
            let none = Seq::<Seq<char>>::empty();
            assert(join_lines(none) =~= Seq::<char>::empty());
            lemma_join_push(none, head[0]);
            lemma_join_push(none.push(head[0]), head[1]);
            lemma_join_push(none.push(head[0]).push(head[1]), head[2]);
            lemma_join_push(none.push(head[0]).push(head[1]).push(head[2]), head[3]);
            assert(none.push(head[0]).push(head[1]).push(head[2]).push(head[3]) =~= head);
            assert(one =~= join_lines(none.push(head[0])));
            assert(two =~= one + head[1] + "\n"@);
            assert(three =~= two + head[2] + "\n"@);
            assert(out@ =~= three + head[3] + "\n"@);
        }
    }

    /// Writes the descriptor out as text.
    pub fn to_text(&self) -> (text: String)
        ensures
            text@ == self@.text(),
    {
        let mut out = String::new();
        self.push_head(&mut out);
        let ghost head = self@.head();
        let ghost all = char_lines(self.glyphs@);
        let mut i: usize = 0;
        proof {
            assert(head + all.take(0) =~= head);
        }
        while i < self.glyphs.len()
            invariant
                i <= self.glyphs.len(),
                head == self@.head(),
                all == char_lines(self.glyphs@),
                out@ == join_lines(head + all.take(i as int)),
            decreases self.glyphs.len() - i,
        {
            push_char_line(&mut out, &self.glyphs[i]);
            proof {
                lemma_join_push(head + all.take(i as int), all[i as int]);
                assert((head + all.take(i as int)).push(all[i as int]) =~= head + all.take(i + 1));
            }
            i = i + 1;
        }
        out.append("kernings count=0");
        out.append("\n");
        proof {
            assert(all.take(i as int) =~= all);
            lemma_join_push(head + all, kernings_line());
            assert((head + all).push(kernings_line()) =~= self@.lines());
        }
        out
    }
}

} // verus!
