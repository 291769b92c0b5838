//! Decisions the daemon takes on each clipboard offer: which MIME type to
//! read, whether to keep what was read, and how to store it.

use vstd::prelude::*;

use crate::dedup::{content_hash, content_hash_of, should_store};
use crate::preview::{decode_utf8_lossy, is_preview_of, make_preview, utf8_lossy};
use crate::text::{chars_of, str_equal};
use crate::types::{ContentType, NewEntry};

verus! {

/// A captured clipboard payload, as read from the compositor.
#[derive(Debug, Clone)]
pub struct CapturedClip {
    /// Raw clipboard data bytes.
    pub data: Vec<u8>,
    /// MIME type string (e.g. "text/plain;charset=utf-8", "image/png").
    pub mime_type: String,
    /// Whether this came from the primary selection (middle-click).
    pub is_primary: bool,
}

/// Text MIME types in preference order.
pub open spec fn text_mimes() -> Seq<Seq<char>> {
    seq!["text/plain;charset=utf-8"@, "text/plain"@, "UTF8_STRING"@, "STRING"@, "TEXT"@]
}

/// Image MIME types in preference order.
pub open spec fn image_mimes() -> Seq<Seq<char>> {
    seq!["image/png"@, "image/jpeg"@, "image/bmp"@, "image/gif"@]
}

fn text_mime_list() -> (r: Vec<&'static str>)
    ensures
        r@.len() == text_mimes().len(),
        forall|i: int| 0 <= i < r@.len() ==> (#[trigger] r@[i])@ == text_mimes()[i],
{
    let r = vec!["text/plain;charset=utf-8", "text/plain", "UTF8_STRING", "STRING", "TEXT"];
    r
}

fn image_mime_list() -> (r: Vec<&'static str>)
    ensures
        r@.len() == image_mimes().len(),
        forall|i: int| 0 <= i < r@.len() ==> (#[trigger] r@[i])@ == image_mimes()[i],
{
    let r = vec!["image/png", "image/jpeg", "image/bmp", "image/gif"];
    r
}

/// The views of a list of strings.
pub open spec fn string_views(v: Seq<String>) -> Seq<Seq<char>> {
    v.map_values(|s: String| s@)
}

/// The first preference that is among the offered types.
pub open spec fn first_offered(prefs: Seq<Seq<char>>, offered: Seq<Seq<char>>) -> Option<
    Seq<char>,
>
    decreases prefs.len(),
{
    if prefs.len() == 0 {
        None
    } else if offered.contains(prefs[0]) {
        Some(prefs[0])
    } else {
        first_offered(prefs.drop_first(), offered)
    }
}

/// The MIME type to read from an offer: the most preferred text type on
/// offer, else (when images are stored) the most preferred image type.
pub open spec fn best_mime(offered: Seq<Seq<char>>, store_images: bool) -> Option<Seq<char>> {
    match first_offered(text_mimes(), offered) {
        Some(m) => Some(m),
        None => if store_images {
            first_offered(image_mimes(), offered)
        } else {
            None
        },
    }
}

fn offers(offered: &[String], mime: &str) -> (r: bool)
    ensures
        r == string_views(offered@).contains(mime@),
{
    let mut i: usize = 0;
    while i < offered.len()
        invariant
            i <= offered@.len(),
            forall|k: int| 0 <= k < i ==> offered@[k]@ != mime@,
        decreases offered@.len() - i,
    {
        if str_equal(offered[i].as_str(), mime) {
            assert(string_views(offered@)[i as int] == mime@);
            return true;
        }
        i = i + 1;
    }
    proof {
        if string_views(offered@).contains(mime@) {
            let k = choose|k: int|
                0 <= k < string_views(offered@).len() && string_views(offered@)[k] == mime@;
            assert(offered@[k]@ == mime@);
        }
    }
    false
}

fn first_offered_in(prefs: &Vec<&'static str>, offered: &[String], Ghost(model): Ghost<
    Seq<Seq<char>>,
>) -> (r: Option<String>)
    requires
        prefs@.len() == model.len(),
        forall|i: int| 0 <= i < prefs@.len() ==> (#[trigger] prefs@[i])@ == model[i],
    ensures
        match r {
            Some(m) => first_offered(model, string_views(offered@)) == Some(m@),
            None => first_offered(model, string_views(offered@)) is None,
        },
{
    let mut i: usize = 0;
    assert(model.skip(0) =~= model);
    while i < prefs.len()
        invariant
            i <= prefs@.len(),
            prefs@.len() == model.len(),
            forall|k: int| 0 <= k < prefs@.len() ==> (#[trigger] prefs@[k])@ == model[k],
            first_offered(model, string_views(offered@)) == first_offered(
                model.skip(i as int),
                string_views(offered@),
            ),
        decreases prefs@.len() - i,
    {
        let m = prefs[i];
        assert(model.skip(i as int)[0] == model[i as int]);
        assert(model.skip(i as int).drop_first() =~= model.skip(i + 1));
        if offers(offered, m) {
            return Some(String::from_str(m));
        }
        i = i + 1;
    }
    assert(model.skip(i as int) =~= Seq::<Seq<char>>::empty());
    None
}

/// Select the best MIME type from the offered list: text first, in
/// preference order, then images in preference order when `store_images`.
pub fn select_best_mime(offered: &[String], store_images: bool) -> (r: Option<String>)
    ensures
        match r {
            Some(m) => best_mime(string_views(offered@), store_images) == Some(m@),
            None => best_mime(string_views(offered@), store_images) is None,
        },
{
    let texts = text_mime_list();
    match first_offered_in(&texts, offered, Ghost(text_mimes())) {
        Some(m) => Some(m),
        None => {
            if store_images {
                let images = image_mime_list();
                first_offered_in(&images, offered, Ghost(image_mimes()))
            } else {
                None
            }
        },
    }
}


/// True when the MIME type starts with `image/`.
pub open spec fn is_image_type(mime: Seq<char>) -> bool {
    mime.len() >= 6 && mime.take(6) == seq!['i', 'm', 'a', 'g', 'e', '/']
}

/// How a payload of the given MIME type is stored: `image/*` as an image,
/// anything else as text.
pub open spec fn content_type_for(mime: Seq<char>) -> ContentType {
    if is_image_type(mime) {
        ContentType::Image
    } else {
        ContentType::Text
    }
}

/// Determine the content type of a capture from its MIME type.
pub fn content_type_for_mime(mime_type: &str) -> (r: ContentType)
    ensures
        r == content_type_for(mime_type@),
{
    let cs = chars_of(mime_type);
    if cs.len() >= 6 && cs[0] == 'i' && cs[1] == 'm' && cs[2] == 'a' && cs[3] == 'g' && cs[4]
        == 'e' && cs[5] == '/' {
        assert(cs@.take(6) =~= seq!['i', 'm', 'a', 'g', 'e', '/']);
        ContentType::Image
    } else {
        assert(cs@.len() >= 6 ==> cs@.take(6)[0] == cs@[0] && cs@.take(6)[1] == cs@[1]
            && cs@.take(6)[2] == cs@[2] && cs@.take(6)[3] == cs@[3] && cs@.take(6)[4] == cs@[4]
            && cs@.take(6)[5] == cs@[5]);
        ContentType::Text
    }
}

/// Whether a chosen MIME type is one of the image types read from offers.
pub fn is_image_mime(mime_type: &str) -> (r: bool)
    ensures
        r == image_mimes().contains(mime_type@),
{
    let images = image_mime_list();
    let mut i: usize = 0;
    while i < images.len()
        invariant
            i <= images@.len(),
            images@.len() == image_mimes().len(),
            forall|k: int| 0 <= k < images@.len() ==> (#[trigger] images@[k])@ == image_mimes()[k],
            forall|k: int| 0 <= k < i ==> image_mimes()[k] != mime_type@,
        decreases images@.len() - i,
    {
        if str_equal(images[i], mime_type) {
            assert(image_mimes()[i as int] == mime_type@);
            return true;
        }
        i = i + 1;
    }
    false
}

/// Whether a payload read from an offer is kept: it must be non-empty, and
/// an image must not exceed `max_image_bytes`.
pub open spec fn capture_kept(mime: Seq<char>, data_len: nat, max_image_bytes: nat) -> bool {
    data_len > 0 && !(image_mimes().contains(mime) && data_len > max_image_bytes)
}

/// Decide whether a payload read with `chosen_mime` is passed on for storage.
pub fn keep_capture(chosen_mime: &str, data_len: usize, max_image_bytes: usize) -> (r: bool)
    ensures
        r == capture_kept(chosen_mime@, data_len as nat, max_image_bytes as nat),
{
    if data_len == 0 {
        return false;
    }
    let is_image = is_image_mime(chosen_mime);
    !(is_image && data_len > max_image_bytes)
}

/// Empty payloads are never kept; a text payload of any size is; an image
/// is kept exactly when it fits the limit, so raising the limit never drops
/// a payload that was kept.
pub proof fn lemma_capture_kept(mime: Seq<char>, data_len: nat, limit: nat, larger: nat)
    requires
        limit <= larger,
    ensures
        data_len == 0 ==> !capture_kept(mime, data_len, limit),
        data_len > 0 && text_mimes().contains(mime) ==> capture_kept(mime, data_len, limit),
        data_len > 0 && image_mimes().contains(mime) ==> (capture_kept(mime, data_len, limit)
            <==> data_len <= limit),
        capture_kept(mime, data_len, limit) ==> capture_kept(mime, data_len, larger),
{
    if data_len > 0 && text_mimes().contains(mime) {
        let i = choose|i: int| 0 <= i < text_mimes().len() && text_mimes()[i] == mime;
        reveal_strlit("text/plain;charset=utf-8");
        reveal_strlit("text/plain");
        reveal_strlit("UTF8_STRING");
        reveal_strlit("STRING");
        reveal_strlit("TEXT");
        reveal_strlit("image/png");
        reveal_strlit("image/jpeg");
        reveal_strlit("image/bmp");
        reveal_strlit("image/gif");
        if image_mimes().contains(mime) {
            let j = choose|j: int| 0 <= j < image_mimes().len() && image_mimes()[j] == mime;
            assert(image_mimes()[j][0] == 'i');
            assert(text_mimes()[i][0] != 'i');
        }
    }
}

/// A MIME type under `image/` is stored as an image, and every other as
/// text.
pub proof fn lemma_content_type_by_prefix(rest: Seq<char>, mime: Seq<char>)
    ensures
        content_type_for(seq!['i', 'm', 'a', 'g', 'e', '/'] + rest) == ContentType::Image,
        (mime.len() < 6 || mime.take(6) != seq!['i', 'm', 'a', 'g', 'e', '/'])
            ==> content_type_for(mime) == ContentType::Text,
{
    assert((seq!['i', 'm', 'a', 'g', 'e', '/'] + rest).take(6) =~= seq!['i', 'm', 'a', 'g', 'e', '/']);
}

/// Build the entry to insert for a captured payload: text is stored as its
/// lossy UTF-8 decoding, images as their raw bytes.
pub fn new_entry_for_clip(
    content_type: ContentType,
    data: &[u8],
    mime_type: &str,
    content_hash: String,
    preview: String,
) -> (r: NewEntry)
    ensures
        r.content_hash == content_hash,
        r.content_type == content_type,
        r.mime_type@ == mime_type@,
        r.preview == preview,
        r.byte_size == data@.len(),
        match content_type {
            ContentType::Text => {
                &&& r.text_content matches Some(t) && t@ == utf8_lossy(data@)
                &&& r.blob_content is None
            },
            ContentType::Image => {
                &&& r.text_content is None
                &&& r.blob_content matches Some(b) && b@ == data@
            },
        },
{
    match content_type {
        ContentType::Text => {
            let text = decode_utf8_lossy(data);
            NewEntry {
                content_hash,
                content_type,
                mime_type: String::from_str(mime_type),
                text_content: Some(text),
                blob_content: None,
                preview,
                byte_size: data.len(),
            }
        },
        ContentType::Image => NewEntry {
            content_hash,
            content_type,
            mime_type: String::from_str(mime_type),
            text_content: None,
            blob_content: Some(vstd::slice::slice_to_vec(data)),
            preview,
            byte_size: data.len(),
        },
    }
}

/// What the watcher captures.
#[derive(Debug, Clone, Copy)]
pub struct WatchSettings {
    /// Whether the primary selection is watched too.
    pub watch_primary: bool,
    /// Whether images are captured.
    pub store_images: bool,
    /// Largest image kept, in bytes.
    pub max_image_bytes: usize,
}

/// Whether a selection change is read: clipboard changes always, primary
/// selection changes only when the primary selection is watched.
pub fn wants_selection(settings: &WatchSettings, is_primary: bool) -> (r: bool)
    ensures
        r == (!is_primary || settings.watch_primary),
{
    !is_primary || settings.watch_primary
}

/// The clip passed on for a payload read with `chosen_mime`, or `None` when
/// it is dropped (empty, an image over the limit, or from a selection that
/// is not watched).
pub fn clip_from_offer(settings: &WatchSettings, chosen_mime: String, data: Vec<u8>, is_primary: bool) -> (r:
    Option<CapturedClip>)
    ensures
        match r {
            Some(c) => {
                &&& capture_kept(chosen_mime@, data@.len(), settings.max_image_bytes as nat)
                &&& (!is_primary || settings.watch_primary)
                &&& c.data@ == data@
                &&& c.mime_type@ == chosen_mime@
                &&& c.is_primary == is_primary
            },
            None => !(capture_kept(chosen_mime@, data@.len(), settings.max_image_bytes as nat) && (
            !is_primary || settings.watch_primary)),
        },
{
    if wants_selection(settings, is_primary) && keep_capture(
        chosen_mime.as_str(),
        data.len(),
        settings.max_image_bytes,
    ) {
        Some(CapturedClip { data, mime_type: chosen_mime, is_primary })
    } else {
        None
    }
}

/// Every clip the watcher passes on, for a MIME type chosen from an offer,
/// is non-empty, has a text type or (with images stored) an image type, is
/// within the image limit when it is an image, and comes from the primary
/// selection only when that is watched.
pub proof fn lemma_watcher_clips(
    settings: WatchSettings,
    offered: Seq<Seq<char>>,
    chosen: Seq<char>,
    data_len: nat,
    is_primary: bool,
)
    requires
        best_mime(offered, settings.store_images) == Some(chosen),
        capture_kept(chosen, data_len, settings.max_image_bytes as nat),
        !is_primary || settings.watch_primary,
    ensures
        data_len > 0,
        text_mimes().contains(chosen) || (settings.store_images && image_mimes().contains(chosen)),
        image_mimes().contains(chosen) ==> data_len <= settings.max_image_bytes,
        is_primary ==> settings.watch_primary,
{
    lemma_first_offered(text_mimes(), offered);
    lemma_first_offered(image_mimes(), offered);
}

/// The chosen MIME type is one that was offered; a text type wins whenever
/// one is offered; an image type is chosen only when images are stored and
/// no text type is offered.
pub proof fn lemma_best_mime_choice(offered: Seq<Seq<char>>, store_images: bool)
    ensures
        best_mime(offered, store_images) matches Some(m) ==> offered.contains(m),
        (exists|i: int| 0 <= i < text_mimes().len() && offered.contains(text_mimes()[i]))
            ==> (best_mime(offered, store_images) matches Some(m) && text_mimes().contains(m)),
        forall|m: Seq<char>|
            best_mime(offered, store_images) == Some(m) && !text_mimes().contains(m) ==> {
                &&& store_images
                &&& image_mimes().contains(m)
                &&& forall|i: int|
                    0 <= i < text_mimes().len() ==> !offered.contains(#[trigger] text_mimes()[i])
            },
{
    lemma_first_offered(text_mimes(), offered);
    lemma_first_offered(image_mimes(), offered);
}

/// `first_offered` picks the earliest preference that is offered.
pub proof fn lemma_first_offered_earliest(prefs: Seq<Seq<char>>, offered: Seq<Seq<char>>, k: int)
    requires
        0 <= k < prefs.len(),
        offered.contains(prefs[k]),
        forall|j: int| 0 <= j < k ==> !offered.contains(#[trigger] prefs[j]),
    ensures
        first_offered(prefs, offered) == Some(prefs[k]),
    decreases k,
{
    if k > 0 {
        assert(!offered.contains(prefs[0]));
        let rest = prefs.drop_first();
        assert forall|j: int| 0 <= j < k - 1 implies !offered.contains(#[trigger] rest[j]) by {
            assert(rest[j] == prefs[j + 1]);
        }
        assert(rest[k - 1] == prefs[k]);
        lemma_first_offered_earliest(rest, offered, k - 1);
    }
}

/// None of the text types is on offer.
pub open spec fn no_text_offered(offered: Seq<Seq<char>>) -> bool {
    &&& !offered.contains("text/plain;charset=utf-8"@)
    &&& !offered.contains("text/plain"@)
    &&& !offered.contains("UTF8_STRING"@)
    &&& !offered.contains("STRING"@)
    &&& !offered.contains("TEXT"@)
}

/// The preference order of offers: `text/plain;charset=utf-8`,
/// `text/plain`, `UTF8_STRING`, `STRING`, `TEXT`; then, only when images are
/// stored, `image/png`, `image/jpeg`, `image/bmp`, `image/gif`.
pub proof fn lemma_mime_preference_order(offered: Seq<Seq<char>>, store_images: bool)
    ensures
        offered.contains("text/plain;charset=utf-8"@) ==> best_mime(offered, store_images) == Some(
            "text/plain;charset=utf-8"@,
        ),
        !offered.contains("text/plain;charset=utf-8"@) && offered.contains("text/plain"@)
            ==> best_mime(offered, store_images) == Some("text/plain"@),
        !offered.contains("text/plain;charset=utf-8"@) && !offered.contains("text/plain"@)
            && offered.contains("UTF8_STRING"@) ==> best_mime(offered, store_images) == Some(
            "UTF8_STRING"@,
        ),
        !offered.contains("text/plain;charset=utf-8"@) && !offered.contains("text/plain"@)
            && !offered.contains("UTF8_STRING"@) && offered.contains("STRING"@) ==> best_mime(
            offered,
            store_images,
        ) == Some("STRING"@),
        !offered.contains("text/plain;charset=utf-8"@) && !offered.contains("text/plain"@)
            && !offered.contains("UTF8_STRING"@) && !offered.contains("STRING"@)
            && offered.contains("TEXT"@) ==> best_mime(offered, store_images) == Some("TEXT"@),
        no_text_offered(offered) && !store_images ==> best_mime(offered, store_images) is None,
        no_text_offered(offered) && store_images && offered.contains("image/png"@) ==> best_mime(
            offered,
            store_images,
        ) == Some("image/png"@),
        no_text_offered(offered) && store_images && !offered.contains("image/png"@)
            && offered.contains("image/jpeg"@) ==> best_mime(offered, store_images) == Some(
            "image/jpeg"@,
        ),
        no_text_offered(offered) && store_images && !offered.contains("image/png"@)
            && !offered.contains("image/jpeg"@) && offered.contains("image/bmp"@) ==> best_mime(
            offered,
            store_images,
        ) == Some("image/bmp"@),
        no_text_offered(offered) && store_images && !offered.contains("image/png"@)
            && !offered.contains("image/jpeg"@) && !offered.contains("image/bmp"@)
            && offered.contains("image/gif"@) ==> best_mime(offered, store_images) == Some(
            "image/gif"@,
        ),
        no_text_offered(offered) && !offered.contains("image/png"@) && !offered.contains(
            "image/jpeg"@,
        ) && !offered.contains("image/bmp"@) && !offered.contains("image/gif"@) ==> best_mime(
            offered,
            store_images,
        ) is None,
{
    let t = text_mimes();
    let im = image_mimes();
    lemma_first_offered(t, offered);
    lemma_first_offered(im, offered);
    if offered.contains(t[0]) {
        lemma_first_offered_earliest(t, offered, 0);
    } else if offered.contains(t[1]) {
        lemma_first_offered_earliest(t, offered, 1);
    } else if offered.contains(t[2]) {
        lemma_first_offered_earliest(t, offered, 2);
    } else if offered.contains(t[3]) {
        lemma_first_offered_earliest(t, offered, 3);
    } else if offered.contains(t[4]) {
        lemma_first_offered_earliest(t, offered, 4);
    } else {
        assert(first_offered(t, offered) is None);
        if offered.contains(im[0]) {
            lemma_first_offered_earliest(im, offered, 0);
        } else if offered.contains(im[1]) {
            lemma_first_offered_earliest(im, offered, 1);
        } else if offered.contains(im[2]) {
            lemma_first_offered_earliest(im, offered, 2);
        } else if offered.contains(im[3]) {
            lemma_first_offered_earliest(im, offered, 3);
        }
    }
}

/// `first_offered` finds an offered preference, and finds one whenever
/// any preference is offered.
pub proof fn lemma_first_offered(prefs: Seq<Seq<char>>, offered: Seq<Seq<char>>)
    ensures
        first_offered(prefs, offered) matches Some(m) ==> offered.contains(m) && prefs.contains(m),
        first_offered(prefs, offered) is None <==> forall|i: int|
            0 <= i < prefs.len() ==> !offered.contains(#[trigger] prefs[i]),
    decreases prefs.len(),
{
    if prefs.len() > 0 {
        lemma_first_offered(prefs.drop_first(), offered);
        if first_offered(prefs, offered) is None {
            assert forall|i: int| 0 <= i < prefs.len() implies !offered.contains(
                #[trigger] prefs[i],
            ) by {
                if i > 0 {
                    assert(prefs[i] == prefs.drop_first()[i - 1]);
                }
            }
        }
        if let Some(m) = first_offered(prefs, offered) {
            if !offered.contains(prefs[0]) {
                let k = choose|k: int|
                    0 <= k < prefs.drop_first().len() && prefs.drop_first()[k] == m;
                assert(prefs[k + 1] == m);
            } else {
                assert(prefs[0] == m);
            }
        }
    }
}


/// The entry to store for a captured payload: its content type follows its
/// MIME type, and its preview is made with `preview_lines` lines.
pub fn entry_for_clip(clip: &CapturedClip, content_hash: String, preview_lines: usize) -> (e:
    NewEntry)
    ensures
        ({
            let ct = content_type_for(clip.mime_type@);
            &&& e.content_hash == content_hash
            &&& e.content_type == ct
            &&& e.mime_type@ == clip.mime_type@
            &&& is_preview_of(e.preview@, ct, clip.data@, clip.mime_type@, preview_lines as nat)
            &&& e.byte_size == clip.data@.len()
            &&& match ct {
                ContentType::Text => {
                    &&& e.text_content matches Some(t) && t@ == utf8_lossy(clip.data@)
                    &&& e.blob_content is None
                },
                ContentType::Image => {
                    &&& e.text_content is None
                    &&& e.blob_content matches Some(b) && b@ == clip.data@
                },
            }
        }),
{
    let mime = clip.mime_type.as_str();
    let ct = content_type_for_mime(mime);
    let preview = make_preview(ct, clip.data.as_slice(), mime, preview_lines);
    new_entry_for_clip(ct, clip.data.as_slice(), mime, content_hash, preview)
}

/// What to store for a captured payload: nothing when deduplication is on
/// and the most recent entry has the payload's hash; otherwise the entry
/// for the payload, under its content hash.
pub fn store_plan(
    clip: &CapturedClip,
    deduplicate: bool,
    most_recent: Option<&str>,
    preview_lines: usize,
) -> (r: Option<NewEntry>)
    ensures
        r is None <==> (deduplicate && (most_recent matches Some(h) && h@ == content_hash_of(
            clip.data@,
        ))),
        r matches Some(e) ==> {
            let ct = content_type_for(clip.mime_type@);
            &&& e.content_hash@ == content_hash_of(clip.data@)
            &&& e.content_type == ct
            &&& e.mime_type@ == clip.mime_type@
            &&& is_preview_of(e.preview@, ct, clip.data@, clip.mime_type@, preview_lines as nat)
            &&& e.byte_size == clip.data@.len()
            &&& match ct {
                ContentType::Text => {
                    &&& e.text_content matches Some(t) && t@ == utf8_lossy(clip.data@)
                    &&& e.blob_content is None
                },
                ContentType::Image => {
                    &&& e.text_content is None
                    &&& e.blob_content matches Some(b) && b@ == clip.data@
                },
            }
        },
{
    let hash = content_hash(clip.data.as_slice());
    if should_store(deduplicate, hash.as_str(), most_recent) {
        Some(entry_for_clip(clip, hash, preview_lines))
    } else {
        None
    }
}

} // verus!
