//! Short human-readable previews of clipboard content.
//!
//! Text previews keep the first lines of the text and are cut at 200
//! characters; image previews describe the format and dimensions.

use vstd::prelude::*;
use image::ImageFormat as F;

use crate::text::{chars_of, decimal, push_chars, push_decimal, push_str_chars, string_from_chars};
use crate::types::ContentType;

verus! {

// ─── Outside calls ──────────────────────────────────────────────────────

/// What `String::from_utf8_lossy` makes of a byte sequence: the text it
/// decodes, with U+FFFD for each invalid sequence.
pub uninterp spec fn utf8_lossy(bytes: Seq<u8>) -> Seq<char>;

/// Calls `String::from_utf8_lossy`. Claimed: the result is the named
/// decoding of the bytes, and valid UTF-8 decodes to exactly its characters.
#[verifier::external_body]
pub(crate) fn decode_utf8_lossy(data: &[u8]) -> (r: String)
    ensures
        r@ == utf8_lossy(data@),
        vstd::utf8::valid_utf8(data@) ==> r@ == vstd::utf8::decode_utf8(data@),
{
    String::from_utf8_lossy(data).into_owned()
}

/// The image formats that `image::ImageFormat` distinguishes.
#[derive(Debug, Clone, Copy, PartialEq, Eq, Structural)]
pub enum ImageKind {
    Png,
    Jpeg,
    Gif,
    WebP,
    Pnm,
    Tiff,
    Tga,
    Dds,
    Bmp,
    Ico,
    Hdr,
    OpenExr,
    Farbfeld,
    Avif,
    Qoi,
    /// A format this library does not tell apart.
    Other,
}

/// The format that `image::guess_format` finds from the leading magic
/// bytes, or `None` when it reports an error.
pub uninterp spec fn image_format_guess(data: Seq<u8>) -> Option<ImageKind>;

/// Calls `image::guess_format` and tells the returned `ImageFormat`
/// variants apart. Claimed: the result is the named guess for these bytes.
#[verifier::external_body]
fn guess_image_kind(data: &[u8]) -> (r: Option<ImageKind>)
    ensures
        r == image_format_guess(data@),
{
    let f = match image::guess_format(data) { Ok(f) => f, Err(_) => return None };
    Some(match f {
        F::Png => ImageKind::Png, F::Jpeg => ImageKind::Jpeg, F::Gif => ImageKind::Gif,
        F::WebP => ImageKind::WebP, F::Pnm => ImageKind::Pnm, F::Tiff => ImageKind::Tiff,
        F::Tga => ImageKind::Tga, F::Dds => ImageKind::Dds, F::Bmp => ImageKind::Bmp,
        F::Ico => ImageKind::Ico, F::Hdr => ImageKind::Hdr, F::OpenExr => ImageKind::OpenExr,
        F::Farbfeld => ImageKind::Farbfeld, F::Avif => ImageKind::Avif, F::Qoi => ImageKind::Qoi,
        _ => ImageKind::Other,
    })
}

/// The name a format is shown under: `PNG` for PNG images, and the
/// variant name of `image::ImageFormat` (its `Debug` text) for the others.
/// `image` stands for a format this library does not tell apart, which
/// `image::guess_format` never reports.
pub open spec fn format_label(k: ImageKind) -> Seq<char> {
    match k {
        ImageKind::Png => "PNG"@,
        ImageKind::Jpeg => "Jpeg"@,
        ImageKind::Gif => "Gif"@,
        ImageKind::WebP => "WebP"@,
        ImageKind::Pnm => "Pnm"@,
        ImageKind::Tiff => "Tiff"@,
        ImageKind::Tga => "Tga"@,
        ImageKind::Dds => "Dds"@,
        ImageKind::Bmp => "Bmp"@,
        ImageKind::Ico => "Ico"@,
        ImageKind::Hdr => "Hdr"@,
        ImageKind::OpenExr => "OpenExr"@,
        ImageKind::Farbfeld => "Farbfeld"@,
        ImageKind::Avif => "Avif"@,
        ImageKind::Qoi => "Qoi"@,
        ImageKind::Other => "image"@,
    }
}

/// The name an image format is shown under in previews.
pub fn image_format_label(k: ImageKind) -> (r: &'static str)
    ensures
        r@ == format_label(k),
{
    match k {
        ImageKind::Png => "PNG",
        ImageKind::Jpeg => "Jpeg",
        ImageKind::Gif => "Gif",
        ImageKind::WebP => "WebP",
        ImageKind::Pnm => "Pnm",
        ImageKind::Tiff => "Tiff",
        ImageKind::Tga => "Tga",
        ImageKind::Dds => "Dds",
        ImageKind::Bmp => "Bmp",
        ImageKind::Ico => "Ico",
        ImageKind::Hdr => "Hdr",
        ImageKind::OpenExr => "OpenExr",
        ImageKind::Farbfeld => "Farbfeld",
        ImageKind::Avif => "Avif",
        ImageKind::Qoi => "Qoi",
        ImageKind::Other => "image",
    }
}

/// Calls `image::load_from_memory` and reads the decoded image's width and
/// height, or `None` when decoding fails. Nothing is claimed of the result:
/// the decoders consulted depend on hooks that any code in the process can
/// register through `image::hooks`, so the outcome is not a function of the
/// bytes alone.
#[verifier::external_body]
fn decode_image_dimensions(data: &[u8]) -> (r: Option<(u32, u32)>)
{
    match image::load_from_memory(data) {
        Ok(img) => Some((img.width(), img.height())),
        Err(_) => None,
    }
}

// ─── Lines ──────────────────────────────────────────────────────────────

/// A line without the carriage return of a `\r\n` terminator.
pub open spec fn strip_cr(line: Seq<char>) -> Seq<char> {
    if line.len() > 0 && line.last() == '\r' {
        line.drop_last()
    } else {
        line
    }
}

/// Lines finished so far and the line in progress, after reading `s`.
pub open spec fn scan_lines(s: Seq<char>) -> (Seq<Seq<char>>, Seq<char>)
    decreases s.len(),
{
    if s.len() == 0 {
        (seq![], seq![])
    } else {
        let (done, cur) = scan_lines(s.drop_last());
        if s.last() == '\n' {
            (done.push(strip_cr(cur)), seq![])
        } else {
            (done, cur.push(s.last()))
        }
    }
}

/// The lines of a text as `str::lines` yields them: split at `\n` or
/// `\r\n`, terminators removed, a final terminator optional.
pub open spec fn lines(s: Seq<char>) -> Seq<Seq<char>> {
    let (done, cur) = scan_lines(s);
    if cur.len() > 0 {
        done.push(cur)
    } else {
        done
    }
}

/// Lines joined with `\n` between them.
pub open spec fn join_lines(ls: Seq<Seq<char>>) -> Seq<char>
    decreases ls.len(),
{
    if ls.len() == 0 {
        seq![]
    } else if ls.len() == 1 {
        ls[0]
    } else {
        join_lines(ls.drop_last()).push('\n') + ls.last()
    }
}

/// The first `n` elements, or all of them when there are fewer.
pub open spec fn take_at_most<A>(s: Seq<A>, n: nat) -> Seq<A> {
    if n < s.len() {
        s.take(n as int)
    } else {
        s
    }
}

/// The first `max_lines` lines of the text, joined with `\n`.
pub open spec fn first_lines(text: Seq<char>, max_lines: nat) -> Seq<char> {
    join_lines(take_at_most(lines(text), max_lines))
}

/// Number of characters a text preview keeps before it is cut.
pub open spec fn preview_char_limit() -> nat {
    200
}

/// The text preview: the first lines, and when they hold more than 200
/// characters, their first 200 characters followed by `…`.
pub open spec fn text_preview_of(text: Seq<char>, max_lines: nat) -> Seq<char> {
    let p = first_lines(text, max_lines);
    if p.len() > preview_char_limit() {
        p.take(preview_char_limit() as int).push('…')
    } else {
        p
    }
}

/// The characters after the last `/`, or all of them when there is none.
pub open spec fn after_last_slash(s: Seq<char>) -> Seq<char>
    decreases s.len(),
{
    if s.len() == 0 {
        s
    } else if s.last() == '/' {
        seq![]
    } else {
        after_last_slash(s.drop_last()).push(s.last())
    }
}

/// The image preview for a guessed format `kind`, decoded dimensions
/// `dims`, a length of `len` bytes and a MIME type: `[image W×H FORMAT]` when
/// the format is known and the image decoded, `[image FORMAT NB]` when only
/// the format is known, and `[image SUBTYPE NB]` with the MIME subtype
/// otherwise.
pub open spec fn image_preview_text(
    kind: Option<ImageKind>,
    dims: Option<(u32, u32)>,
    len: nat,
    mime_type: Seq<char>,
) -> Seq<char> {
    let size = decimal(len);
    match kind {
        Some(kind) => match dims {
            Some((w, h)) => "[image "@ + decimal(w as nat) + "×"@ + decimal(h as nat) + " "@
                + format_label(kind) + "]"@,
            None => "[image "@ + format_label(kind) + " "@ + size + "B]"@,
        },
        None => "[image "@ + after_last_slash(mime_type) + " "@ + size + "B]"@,
    }
}

/// `p` is an image preview of `data`: the preview text for the format
/// guessed from the bytes, whatever dimensions the decoder reported.
pub open spec fn is_image_preview_of(p: Seq<char>, data: Seq<u8>, mime_type: Seq<char>) -> bool {
    exists|dims: Option<(u32, u32)>|
        p == #[trigger] image_preview_text(image_format_guess(data), dims, data.len(), mime_type)
}

/// `p` is a preview of clipboard content: for text, exactly the text
/// preview of its lossy decoding; for an image, an image preview of it.
pub open spec fn is_preview_of(
    p: Seq<char>,
    content_type: ContentType,
    data: Seq<u8>,
    mime_type: Seq<char>,
    max_lines: nat,
) -> bool {
    match content_type {
        ContentType::Text => p == text_preview_of(utf8_lossy(data), max_lines),
        ContentType::Image => is_image_preview_of(p, data, mime_type),
    }
}

// ─── Implementation ─────────────────────────────────────────────────────

/// Splits a text into its lines.
pub fn split_lines(cs: &[char]) -> (r: Vec<Vec<char>>)
    ensures
        r@.len() == lines(cs@).len(),
        forall|j: int| 0 <= j < r@.len() ==> (#[trigger] r@[j])@ == lines(cs@)[j],
{
    let mut done: Vec<Vec<char>> = Vec::new();
    let mut cur: Vec<char> = Vec::new();
    let mut i: usize = 0;
    while i < cs.len()
        invariant
            i <= cs@.len(),
            done@.len() == scan_lines(cs@.take(i as int)).0.len(),
            forall|j: int|
                0 <= j < done@.len() ==> (#[trigger] done@[j])@ == scan_lines(
                    cs@.take(i as int),
                ).0[j],
            cur@ == scan_lines(cs@.take(i as int)).1,
        decreases cs@.len() - i,
    {
        let c = cs[i];
        let ghost prev = cs@.take(i as int);
        assert(cs@.take(i + 1).drop_last() =~= prev);
        assert(cs@.take(i + 1).last() == c);
        if c == '\n' {
            let n = cur.len();
            if n > 0 && cur[n - 1] == '\r' {
                cur.pop();
                assert(cur@ =~= strip_cr(scan_lines(prev).1));
            }
            let line = cur;
            done.push(line);
            cur = Vec::new();
        } else {
            cur.push(c);
        }
        i = i + 1;
    }
    assert(cs@.take(cs@.len() as int) =~= cs@);
    if cur.len() > 0 {
        done.push(cur);
    }
    done
}

/// Joins the first `n` lines with `\n`.
fn join_first_lines(ls: &Vec<Vec<char>>, n: usize, Ghost(model): Ghost<Seq<Seq<char>>>) -> (r: Vec<
    char,
>)
    requires
        n <= ls@.len(),
        ls@.len() == model.len(),
        forall|j: int| 0 <= j < ls@.len() ==> (#[trigger] ls@[j])@ == model[j],
    ensures
        r@ == join_lines(model.take(n as int)),
{
    let mut out: Vec<char> = Vec::new();
    let mut j: usize = 0;
    while j < n
        invariant
            j <= n <= ls@.len(),
            ls@.len() == model.len(),
            forall|k: int| 0 <= k < ls@.len() ==> (#[trigger] ls@[k])@ == model[k],
            out@ == join_lines(model.take(j as int)),
        decreases n - j,
    {
        let ghost before = out@;
        assert(model.take(j + 1).drop_last() =~= model.take(j as int));
        if j > 0 {
            out.push('\n');
        }
        push_chars(&mut out, ls[j].as_slice());
        if j == 0 {
            assert(out@ =~= model.take(1)[0]);
        } else {
            assert(out@ =~= join_lines(model.take(j as int)).push('\n') + model.take(j + 1).last());
        }
        j = j + 1;
    }
    out
}

/// The text preview of `text`: its first `max_lines` lines, cut to 200
/// characters followed by `…` when longer.
pub fn text_preview(text: &str, max_lines: usize) -> (r: String)
    ensures
        r@ == text_preview_of(text@, max_lines as nat),
{
    let cs = chars_of(text);
    let ls = split_lines(cs.as_slice());
    let ghost model = lines(cs@);
    let n = if max_lines < ls.len() {
        max_lines
    } else {
        ls.len()
    };
    assert(model.take(n as int) =~= take_at_most(model, max_lines as nat));
    let p = join_first_lines(&ls, n, Ghost(model));
    assert(p@ == first_lines(text@, max_lines as nat));
    let limit: usize = 200;
    if p.len() > limit {
        let mut cut: Vec<char> = Vec::new();
        push_chars(&mut cut, p.as_slice().split_at(limit).0);
        cut.push('…');
        assert(cut@ =~= p@.take(200).push('…'));
        string_from_chars(cut.as_slice())
    } else {
        string_from_chars(p.as_slice())
    }
}

/// Appends the characters after the last `/` of `s`.
fn push_after_last_slash(out: &mut Vec<char>, s: &str)
    ensures
        final(out)@ == old(out)@ + after_last_slash(s@),
{
    let cs = chars_of(s);
    // Find the start of the last segment, scanning backwards.
    let mut start: usize = cs.len();
    assert(cs@.take(start as int) =~= cs@);
    assert(cs@.skip(start as int) =~= Seq::<char>::empty());
    while start > 0 && cs[start - 1] != '/'
        invariant
            start <= cs@.len(),
            after_last_slash(cs@) == after_last_slash(cs@.take(start as int)) + cs@.skip(
                start as int,
            ),
        decreases start,
    {
        let ghost t = cs@.take(start as int);
        assert(t.drop_last() =~= cs@.take(start - 1));
        assert(cs@.skip(start - 1) =~= seq![t.last()] + cs@.skip(start as int));
        start = start - 1;
    }
    assert(after_last_slash(cs@.take(start as int)) =~= Seq::<char>::empty());
    let mut i: usize = start;
    while i < cs.len()
        invariant
            start <= i <= cs@.len(),
            out@ == old(out)@ + cs@.subrange(start as int, i as int),
        decreases cs@.len() - i,
    {
        out.push(cs[i]);
        assert(cs@.subrange(start as int, i + 1) =~= cs@.subrange(start as int, i as int).push(
            cs@[i as int],
        ));
        i = i + 1;
    }
    assert(cs@.subrange(start as int, cs@.len() as int) =~= cs@.skip(start as int));
}

/// The image preview text for a guessed format, decoded dimensions, a
/// length in bytes and a MIME type.
pub fn image_preview_from(
    kind: Option<ImageKind>,
    dims: Option<(u32, u32)>,
    len: usize,
    mime_type: &str,
) -> (r: String)
    ensures
        r@ == image_preview_text(kind, dims, len as nat, mime_type@),
{
    let mut out: Vec<char> = Vec::new();
    push_str_chars(&mut out, "[image ");
    match kind {
        Some(kind) => {
            let name = image_format_label(kind);
            match dims {
                Some((w, h)) => {
                    push_decimal(&mut out, w as u64);
                    push_str_chars(&mut out, "×");
                    push_decimal(&mut out, h as u64);
                    push_str_chars(&mut out, " ");
                    push_str_chars(&mut out, name);
                    push_str_chars(&mut out, "]");
                },
                None => {
                    push_str_chars(&mut out, name);
                    push_str_chars(&mut out, " ");
                    push_decimal(&mut out, len as u64);
                    push_str_chars(&mut out, "B]");
                },
            }
        },
        None => {
            push_after_last_slash(&mut out, mime_type);
            push_str_chars(&mut out, " ");
            push_decimal(&mut out, len as u64);
            push_str_chars(&mut out, "B]");
        },
    }
    assert(out@ =~= image_preview_text(kind, dims, len as nat, mime_type@));
    string_from_chars(out.as_slice())
}

/// The image preview of `data`: its format is guessed from the leading
/// bytes, and only a recognised image is decoded for its dimensions.
pub fn image_preview(data: &[u8], mime_type: &str) -> (r: String)
    ensures
        is_image_preview_of(r@, data@, mime_type@),
{
    let kind = guess_image_kind(data);
    let dims = match kind {
        Some(_) => decode_image_dimensions(data),
        None => None,
    };
    let r = image_preview_from(kind, dims, data.len(), mime_type);
    assert(r@ == image_preview_text(image_format_guess(data@), dims, data@.len(), mime_type@));
    r
}

/// Generate a preview string from raw clipboard content.
///
/// For text: the first `max_lines` lines, truncated to 200 characters.
/// For images: a descriptive string like `[image 1920×1080 PNG]`.
pub fn make_preview(
    content_type: ContentType,
    data: &[u8],
    mime_type: &str,
    max_lines: usize,
) -> (r: String)
    ensures
        is_preview_of(r@, content_type, data@, mime_type@, max_lines as nat),
{
    match content_type {
        ContentType::Text => {
            let text = decode_utf8_lossy(data);
            text_preview(text.as_str(), max_lines)
        },
        ContentType::Image => image_preview(data, mime_type),
    }
}

/// A text preview holds at most 201 characters: 200 of the text and, when
/// the text was cut, the `…`.
pub proof fn lemma_text_preview_bounded(text: Seq<char>, max_lines: nat)
    ensures
        text_preview_of(text, max_lines).len() <= 201,
{
}

/// Number of `\n` characters.
pub open spec fn count_newlines(s: Seq<char>) -> nat
    decreases s.len(),
{
    if s.len() == 0 {
        0
    } else {
        count_newlines(s.drop_last()) + if s.last() == '\n' {
            1nat
        } else {
            0nat
        }
    }
}

/// No `\n` in the sequence.
pub open spec fn has_no_newline(s: Seq<char>) -> bool {
    forall|i: int| 0 <= i < s.len() ==> s[i] != '\n'
}

proof fn lemma_count_newlines_concat(a: Seq<char>, b: Seq<char>)
    ensures
        count_newlines(a + b) == count_newlines(a) + count_newlines(b),
    decreases b.len(),
{
    if b.len() == 0 {
        assert(a + b =~= a);
    } else {
        lemma_count_newlines_concat(a, b.drop_last());
        assert((a + b).drop_last() =~= a + b.drop_last());
    }
}

proof fn lemma_no_newline_count(s: Seq<char>)
    requires
        has_no_newline(s),
    ensures
        count_newlines(s) == 0,
    decreases s.len(),
{
    if s.len() > 0 {
        assert(has_no_newline(s.drop_last()));
        lemma_no_newline_count(s.drop_last());
    }
}

proof fn lemma_count_newlines_prefix(s: Seq<char>, k: int)
    requires
        0 <= k <= s.len(),
    ensures
        count_newlines(s.take(k)) <= count_newlines(s),
    decreases s.len() - k,
{
    if k < s.len() {
        lemma_count_newlines_prefix(s, k + 1);
        assert(s.take(k + 1).drop_last() =~= s.take(k));
    } else {
        assert(s.take(k) =~= s);
    }
}

proof fn lemma_scan_lines_no_newline(s: Seq<char>)
    ensures
        has_no_newline(scan_lines(s).1),
        forall|j: int|
            0 <= j < scan_lines(s).0.len() ==> has_no_newline(#[trigger] scan_lines(s).0[j]),
    decreases s.len(),
{
    if s.len() > 0 {
        lemma_scan_lines_no_newline(s.drop_last());
        let (done, cur) = scan_lines(s.drop_last());
        if s.last() == '\n' {
            assert(has_no_newline(strip_cr(cur)));
            assert forall|j: int| 0 <= j < done.push(strip_cr(cur)).len() implies has_no_newline(
                #[trigger] done.push(strip_cr(cur))[j],
            ) by {
                if j < done.len() {
                    assert(done.push(strip_cr(cur))[j] == done[j]);
                }
            }
        } else {
            assert(has_no_newline(cur.push(s.last())));
        }
    }
}

proof fn lemma_join_lines_newlines(ls: Seq<Seq<char>>)
    requires
        ls.len() > 0,
        forall|j: int| 0 <= j < ls.len() ==> has_no_newline(#[trigger] ls[j]),
    ensures
        count_newlines(join_lines(ls)) == ls.len() - 1,
    decreases ls.len(),
{
    if ls.len() == 1 {
        lemma_no_newline_count(ls[0]);
    } else {
        let init = ls.drop_last();
        assert forall|j: int| 0 <= j < init.len() implies has_no_newline(#[trigger] init[j]) by {
            assert(init[j] == ls[j]);
        }
        lemma_join_lines_newlines(init);
        let front = join_lines(init).push('\n');
        assert(front.drop_last() =~= join_lines(init));
        lemma_no_newline_count(ls.last());
        lemma_count_newlines_concat(front, ls.last());
    }
}

/// A text preview shows at most `max_lines` lines: it holds fewer than
/// `max_lines` line breaks (none when `max_lines` is 0 or 1).
pub proof fn lemma_text_preview_line_count(text: Seq<char>, max_lines: nat)
    ensures
        count_newlines(text_preview_of(text, max_lines)) + 1 <= if max_lines == 0 {
            1
        } else {
            max_lines
        },
{
    let all = lines(text);
    lemma_scan_lines_no_newline(text);
    let (done, cur) = scan_lines(text);
    assert forall|j: int| 0 <= j < all.len() implies has_no_newline(#[trigger] all[j]) by {
        if j < done.len() {
            assert(all[j] == done[j]);
        }
    }
    let ls = take_at_most(all, max_lines);
    assert forall|j: int| 0 <= j < ls.len() implies has_no_newline(#[trigger] ls[j]) by {
        assert(ls[j] == all[j]);
    }
    let p = first_lines(text, max_lines);
    if ls.len() > 0 {
        lemma_join_lines_newlines(ls);
    } else {
        assert(p == Seq::<char>::empty());
    }
    if p.len() > preview_char_limit() {
        lemma_count_newlines_prefix(p, preview_char_limit() as int);
        let cut = p.take(preview_char_limit() as int);
        assert(cut.push('…').drop_last() =~= cut);
    }
}

proof fn lemma_scan_single_line(s: Seq<char>)
    requires
        has_no_newline(s),
    ensures
        scan_lines(s) == (Seq::<Seq<char>>::empty(), s),
    decreases s.len(),
{
    if s.len() > 0 {
        assert(has_no_newline(s.drop_last()));
        lemma_scan_single_line(s.drop_last());
        assert(s.drop_last().push(s.last()) =~= s);
    } else {
        assert(s =~= Seq::<char>::empty());
    }
}

/// A single line is previewed as itself when it has at most 200
/// characters, and as its first 200 characters and `…` otherwise.
pub proof fn lemma_single_line_preview(text: Seq<char>, max_lines: nat)
    requires
        has_no_newline(text),
        max_lines >= 1,
    ensures
        text.len() <= 200 ==> text_preview_of(text, max_lines) == text,
        text.len() > 200 ==> text_preview_of(text, max_lines) == text.take(200).push('…'),
{
    lemma_scan_single_line(text);
    if text.len() > 0 {
        assert(lines(text) == seq![text]);
        assert(take_at_most(lines(text), max_lines) == seq![text]);
        assert(first_lines(text, max_lines) == text);
    } else {
        assert(lines(text) =~= Seq::<Seq<char>>::empty());
        assert(first_lines(text, max_lines) =~= text);
    }
}

proof fn lemma_scan_append_line(p: Seq<char>, q: Seq<char>)
    requires
        has_no_newline(q),
    ensures
        scan_lines(p + q) == (scan_lines(p).0, scan_lines(p).1 + q),
    decreases q.len(),
{
    if q.len() == 0 {
        assert(p + q =~= p);
        assert(scan_lines(p).1 + q =~= scan_lines(p).1);
    } else {
        assert(has_no_newline(q.drop_last()));
        lemma_scan_append_line(p, q.drop_last());
        assert((p + q).drop_last() =~= p + q.drop_last());
        assert((p + q).last() == q.last());
        assert((scan_lines(p).1 + q.drop_last()).push(q.last()) =~= scan_lines(p).1 + q);
    }
}

/// Two lines are previewed with a `\n` between them when two lines are
/// shown and they fit in 200 characters, and a `\r` before the break is
/// dropped; with one line shown only the first remains. (A first line that
/// ends in `\r` is left out: its `\r` is taken as part of the break.)
pub proof fn lemma_two_line_preview(a: Seq<char>, b: Seq<char>, max_lines: nat)
    requires
        has_no_newline(a),
        has_no_newline(b),
        a.len() == 0 || a.last() != '\r',
        b.len() > 0,
        a.len() + b.len() < 200,
        max_lines >= 1,
    ensures
        max_lines >= 2 ==> text_preview_of(a.push('\n') + b, max_lines) == a.push('\n') + b,
        max_lines >= 2 ==> text_preview_of(a.push('\r').push('\n') + b, max_lines) == a.push('\n') + b,
        max_lines == 1 ==> text_preview_of(a.push('\n') + b, max_lines) == a,
{
    lemma_scan_single_line(a);
    assert(a.push('\r').drop_last() =~= a);
    assert(has_no_newline(a.push('\r')));
    lemma_scan_single_line(a.push('\r'));
    let t1 = a.push('\n');
    let t2 = a.push('\r').push('\n');
    assert(t1.drop_last() =~= a);
    assert(t2.drop_last() =~= a.push('\r'));
    assert(strip_cr(a.push('\r')) == a);
    assert(strip_cr(a) == a);
    assert(scan_lines(t1) == (seq![strip_cr(a)], Seq::<char>::empty()));
    assert(scan_lines(t2) == (seq![a], Seq::<char>::empty()));
    lemma_scan_append_line(t1, b);
    lemma_scan_append_line(t2, b);
    assert(Seq::<char>::empty() + b =~= b);
    assert(lines(t1 + b) == seq![strip_cr(a), b]);
    assert(lines(t2 + b) == seq![a, b]);
    assert(seq![a, b].drop_last() =~= seq![a]);
    assert(seq![a, b].last() == b);
    assert(join_lines(seq![a]) == a);
    assert(join_lines(seq![a, b]) == a.push('\n') + b);
    assert(take_at_most(seq![a, b], max_lines) == seq![a, b] || max_lines < 2);
    if max_lines == 1 {
        assert(take_at_most(seq![strip_cr(a), b], 1) =~= seq![strip_cr(a)]);
    }
}

} // verus!
