use vstd::prelude::*;

verus! {

/// Index of the last occurrence of `c` in `s`, or -1 when it does not occur.
pub open spec fn last_index_of(s: Seq<char>, c: char) -> int
    decreases s.len(),
{
    if s.len() == 0 {
        -1
    } else if s.last() == c {
        s.len() - 1
    } else {
        last_index_of(s.drop_last(), c)
    }
}

pub open spec fn is_dot_dot(name: Seq<char>) -> bool {
    name == seq!['.', '.']
}

/// The extension of a file name, as `Path::extension` defines it: the part after
/// the last `.`, unless there is no `.`, the only `.` starts the name, or the name
/// is `..`.
pub open spec fn extension_of(name: Seq<char>) -> Option<Seq<char>> {
    let i = last_index_of(name, '.');
    if is_dot_dot(name) || i <= 0 {
        None
    } else {
        Some(name.subrange(i + 1, name.len() as int))
    }
}

/// The stem of a file name, as `Path::file_stem` defines it: the name without its
/// extension and the `.` before it.
pub open spec fn stem_of(name: Seq<char>) -> Seq<char> {
    let i = last_index_of(name, '.');
    if is_dot_dot(name) || i <= 0 {
        name
    } else {
        name.subrange(0, i)
    }
}

/// `c` lowercased by ASCII rules equals `lower`.
pub open spec fn ascii_lower_matches(c: char, lower: char) -> bool {
    c == lower || (65 <= c as u32 <= 90 && c as u32 + 32 == lower as u32)
}

/// `s.to_ascii_lowercase()` equals `lower`, for a `lower` without capitals.
pub open spec fn ascii_lowercase_is(s: Seq<char>, lower: Seq<char>) -> bool {
    s.len() == lower.len() && forall|i: int| 0 <= i < s.len() ==> ascii_lower_matches(s[i], lower[i])
}

/// The audio formats the music library plays, by lowercased extension.
pub open spec fn is_supported_extension(ext: Seq<char>) -> bool {
    ||| ascii_lowercase_is(ext, "mp3"@)
    ||| ascii_lowercase_is(ext, "flac"@)
    ||| ascii_lowercase_is(ext, "m4a"@)
    ||| ascii_lowercase_is(ext, "aac"@)
    ||| ascii_lowercase_is(ext, "wav"@)
    ||| ascii_lowercase_is(ext, "ogg"@)
}

pub open spec fn is_supported_audio_name(name: Seq<char>) -> bool {
    match extension_of(name) {
        Some(ext) => is_supported_extension(ext),
        None => false,
    }
}

fn last_dot_index(name: &str) -> (r: (usize, bool))
    ensures
        r.1 <==> last_index_of(name@, '.') >= 0,
        r.1 ==> r.0 == last_index_of(name@, '.'),
        r.1 ==> r.0 < name@.len(),
{
    let n = name.unicode_len();
    let mut found = false;
    let mut last: usize = 0;
    let mut i: usize = 0;
    while i < n
        invariant
            n == name@.len(),
            i <= n,
            found <==> last_index_of(name@.subrange(0, i as int), '.') >= 0,
            found ==> last == last_index_of(name@.subrange(0, i as int), '.'),
            found ==> last < i,
        decreases n - i,
    {
        let c = name.get_char(i);
        assert(name@.subrange(0, i + 1).drop_last() =~= name@.subrange(0, i as int));
        if c == '.' {
            found = true;
            last = i;
        }
        i = i + 1;
    }
    assert(name@.subrange(0, n as int) =~= name@);
    (last, found)
}

fn is_two_dots(name: &str) -> (r: bool)
    ensures
        r == is_dot_dot(name@),
{
    let n = name.unicode_len();
    if n != 2 {
        return false;
    }
    let r = name.get_char(0) == '.' && name.get_char(1) == '.';
    assert(r ==> name@ =~= seq!['.', '.']);
    r
}

/// The extension of a file name, if it has one.
pub fn file_extension(name: &str) -> (r: Option<String>)
    ensures
        r matches Some(e) ==> extension_of(name@) == Some(e@),
        r is None ==> extension_of(name@) is None,
{
    let (i, found) = last_dot_index(name);
    if is_two_dots(name) || !found || i == 0 {
        None
    } else {
        let n = name.unicode_len();
        Some(name.substring_char(i + 1, n).to_owned())
    }
}

/// The name of a file without its extension.
pub fn file_stem(name: &str) -> (r: String)
    ensures
        r@ == stem_of(name@),
{
    let (i, found) = last_dot_index(name);
    if is_two_dots(name) || !found || i == 0 {
        name.to_owned()
    } else {
        name.substring_char(0, i).to_owned()
    }
}

fn eq_ascii_lowercase(s: &str, lower: &str) -> (r: bool)
    ensures
        r == ascii_lowercase_is(s@, lower@),
{
    let n = s.unicode_len();
    if n != lower.unicode_len() {
        return false;
    }
    let mut i: usize = 0;
    while i < n
        invariant
            n == s@.len(),
            n == lower@.len(),
            i <= n,
            forall|j: int| 0 <= j < i ==> ascii_lower_matches(s@[j], lower@[j]),
        decreases n - i,
    {
        let c = s.get_char(i);
        let l = lower.get_char(i);
        let cu = c as u32;
        let ok = c == l || (65 <= cu && cu <= 90 && cu + 32 == l as u32);
        if !ok {
            return false;
        }
        i = i + 1;
    }
    true
}

/// Whether a file, by the extension of its name, is one the music library plays:
/// mp3, flac, m4a, aac, wav or ogg, in any ASCII case.
pub fn is_supported_audio(file_name: &str) -> (r: bool)
    ensures
        r == is_supported_audio_name(file_name@),
{
    match file_extension(file_name) {
        None => false,
        Some(ext) => {
            let e = ext.as_str();
            eq_ascii_lowercase(e, "mp3") || eq_ascii_lowercase(e, "flac") || eq_ascii_lowercase(
                e,
                "m4a",
            ) || eq_ascii_lowercase(e, "aac") || eq_ascii_lowercase(e, "wav")
                || eq_ascii_lowercase(e, "ogg")
        },
    }
}

/// `a` and `b` are the same text up to the ASCII case of their letters.
pub open spec fn same_up_to_ascii_case(a: Seq<char>, b: Seq<char>) -> bool {
    &&& a.len() == b.len()
    &&& forall|i: int|
        0 <= i < a.len() ==> {
            ||| a[i] == b[i]
            ||| (65 <= a[i] as u32 <= 90 && a[i] as u32 + 32 == b[i] as u32)
            ||| (65 <= b[i] as u32 <= 90 && b[i] as u32 + 32 == a[i] as u32)
        }
}

/// `i` is the position of the last `.` of `name`.
pub open spec fn is_last_dot(name: Seq<char>, i: int) -> bool {
    &&& 0 <= i < name.len()
    &&& name[i] == '.'
    &&& forall|j: int| i < j < name.len() ==> name[j] != '.'
}

proof fn lemma_last_index_is(s: Seq<char>, i: int)
    requires
        is_last_dot(s, i),
    ensures
        last_index_of(s, '.') == i,
    decreases s.len(),
{
    if s.last() != '.' {
        assert(i < s.len() - 1);
        lemma_last_index_is(s.drop_last(), i);
    }
}

proof fn lemma_no_dot_after_start(s: Seq<char>)
    requires
        forall|j: int| 0 < j < s.len() ==> s[j] != '.',
    ensures
        last_index_of(s, '.') <= 0,
    decreases s.len(),
{
    if s.len() > 1 {
        assert(s.last() == s[s.len() - 1]);
        assert(s.last() != '.');
        lemma_no_dot_after_start(s.drop_last());
        assert(last_index_of(s, '.') == last_index_of(s.drop_last(), '.'));
    } else if s.len() == 1 {
        assert(s.drop_last().len() == 0);
        assert(last_index_of(s.drop_last(), '.') == -1);
    }
}

proof fn lemma_case_keeps_last_dot(a: Seq<char>, b: Seq<char>)
    requires
        same_up_to_ascii_case(a, b),
    ensures
        last_index_of(a, '.') == last_index_of(b, '.'),
    decreases a.len(),
{
    if a.len() > 0 {
        assert(a.last() == '.' <==> b.last() == '.') by {
            assert(a[a.len() - 1] == a.last());
        }
        lemma_case_keeps_last_dot(a.drop_last(), b.drop_last());
    }
}

proof fn lemma_char_code_injective(a: char, b: char)
    requires
        a as u32 == b as u32,
    ensures
        a == b,
{
}

proof fn lemma_case_insensitive_match(e1: Seq<char>, e2: Seq<char>, lit: Seq<char>)
    requires
        same_up_to_ascii_case(e1, e2),
        forall|k: int| 0 <= k < lit.len() ==> !(65 <= #[trigger] lit[k] as u32 <= 90),
    ensures
        ascii_lowercase_is(e1, lit) == ascii_lowercase_is(e2, lit),
        ascii_lowercase_is(e1, lit) == same_up_to_ascii_case(e1, lit),
{
    if e1.len() == lit.len() {
        assert(ascii_lowercase_is(e1, lit) == same_up_to_ascii_case(e1, lit)) by {
            assert forall|k: int| 0 <= k < e1.len() implies ascii_lower_matches(e1[k], lit[k]) == {
                ||| e1[k] == lit[k]
                ||| (65 <= e1[k] as u32 <= 90 && e1[k] as u32 + 32 == lit[k] as u32)
                ||| (65 <= lit[k] as u32 <= 90 && lit[k] as u32 + 32 == e1[k] as u32)
            } by {
                assert(!(65 <= lit[k] as u32 <= 90));
            }
        }
        assert forall|k: int| 0 <= k < e1.len() implies ascii_lower_matches(e1[k], lit[k])
            == ascii_lower_matches(e2[k], lit[k]) by {
            assert(!(65 <= lit[k] as u32 <= 90));
            let c1 = e1[k];
            let c2 = e2[k];
            let l = lit[k];
            assert({
                ||| c1 == c2
                ||| (65 <= c1 as u32 <= 90 && c1 as u32 + 32 == c2 as u32)
                ||| (65 <= c2 as u32 <= 90 && c2 as u32 + 32 == c1 as u32)
            });
            if c1 != c2 {
                if 65 <= c1 as u32 <= 90 && c1 as u32 + 32 == c2 as u32 {
                    assert(c1 != l);
                    if c2 as u32 == l as u32 {
                        lemma_char_code_injective(c2, l);
                    }
                    assert(!(65 <= c2 as u32 <= 90));
                } else {
                    assert(c2 != l);
                    if c1 as u32 == l as u32 {
                        lemma_char_code_injective(c1, l);
                    }
                    assert(!(65 <= c1 as u32 <= 90));
                }
            }
        }
    }
}

proof fn lemma_supported_literals_lowercase()
    ensures
        forall|k: int| 0 <= k < "mp3"@.len() ==> !(65 <= #[trigger] "mp3"@[k] as u32 <= 90),
        forall|k: int| 0 <= k < "flac"@.len() ==> !(65 <= #[trigger] "flac"@[k] as u32 <= 90),
        forall|k: int| 0 <= k < "m4a"@.len() ==> !(65 <= #[trigger] "m4a"@[k] as u32 <= 90),
        forall|k: int| 0 <= k < "aac"@.len() ==> !(65 <= #[trigger] "aac"@[k] as u32 <= 90),
        forall|k: int| 0 <= k < "wav"@.len() ==> !(65 <= #[trigger] "wav"@[k] as u32 <= 90),
        forall|k: int| 0 <= k < "ogg"@.len() ==> !(65 <= #[trigger] "ogg"@[k] as u32 <= 90),
{
    reveal_strlit("mp3");
    reveal_strlit("flac");
    reveal_strlit("m4a");
    reveal_strlit("aac");
    reveal_strlit("wav");
    reveal_strlit("ogg");
}

/// Whether a file plays does not depend on the ASCII case of its name: `Song.MP3`
/// plays exactly when `song.mp3` does.
pub proof fn lemma_supported_ignores_ascii_case(n1: Seq<char>, n2: Seq<char>)
    requires
        same_up_to_ascii_case(n1, n2),
    ensures
        is_supported_audio_name(n1) == is_supported_audio_name(n2),
{
    lemma_case_keeps_last_dot(n1, n2);
    let i = last_index_of(n1, '.');
    assert(is_dot_dot(n1) == is_dot_dot(n2)) by {
        if is_dot_dot(n1) {
            assert(n2 =~= seq!['.', '.']);
        }
        if is_dot_dot(n2) {
            assert(n1 =~= seq!['.', '.']);
        }
    }
    if !is_dot_dot(n1) && i > 0 {
        lemma_last_index_bound(n1);
        let e1 = n1.subrange(i + 1, n1.len() as int);
        let e2 = n2.subrange(i + 1, n2.len() as int);
        assert(same_up_to_ascii_case(e1, e2)) by {
            assert forall|k: int| 0 <= k < e1.len() implies e1[k] == n1[i + 1 + k] && e2[k] == n2[
                i + 1 + k] by {}
        }
        lemma_supported_literals_lowercase();
        lemma_case_insensitive_match(e1, e2, "mp3"@);
        lemma_case_insensitive_match(e1, e2, "flac"@);
        lemma_case_insensitive_match(e1, e2, "m4a"@);
        lemma_case_insensitive_match(e1, e2, "aac"@);
        lemma_case_insensitive_match(e1, e2, "wav"@);
        lemma_case_insensitive_match(e1, e2, "ogg"@);
    }
}

proof fn lemma_last_index_bound(s: Seq<char>)
    ensures
        -1 <= last_index_of(s, '.') < s.len(),
    decreases s.len(),
{
    if s.len() > 0 {
        lemma_last_index_bound(s.drop_last());
    }
}

/// A file plays exactly when the part of its name after the last `.` (not a `.`
/// that starts the name) is mp3, flac, m4a, aac, wav or ogg, in any ASCII case; a
/// name without such a `.` never plays.
pub proof fn lemma_supported_extensions(name: Seq<char>, i: int)
    requires
        is_last_dot(name, i),
    ensures
        i > 0 && name != seq!['.', '.'] ==> (is_supported_audio_name(name) <==> {
            let ext = name.subrange(i + 1, name.len() as int);
            ||| same_up_to_ascii_case(ext, "mp3"@)
            ||| same_up_to_ascii_case(ext, "flac"@)
            ||| same_up_to_ascii_case(ext, "m4a"@)
            ||| same_up_to_ascii_case(ext, "aac"@)
            ||| same_up_to_ascii_case(ext, "wav"@)
            ||| same_up_to_ascii_case(ext, "ogg"@)
        }),
        i == 0 ==> !is_supported_audio_name(name),
{
    lemma_last_index_is(name, i);
    if i > 0 && name != seq!['.', '.'] {
        let ext = name.subrange(i + 1, name.len() as int);
        lemma_supported_literals_lowercase();
        lemma_case_insensitive_match(ext, ext, "mp3"@);
        lemma_case_insensitive_match(ext, ext, "flac"@);
        lemma_case_insensitive_match(ext, ext, "m4a"@);
        lemma_case_insensitive_match(ext, ext, "aac"@);
        lemma_case_insensitive_match(ext, ext, "wav"@);
        lemma_case_insensitive_match(ext, ext, "ogg"@);
    }
}

/// A name with no `.` after its first character never plays.
pub proof fn lemma_no_extension_not_supported(name: Seq<char>)
    requires
        forall|j: int| 0 < j < name.len() ==> name[j] != '.',
    ensures
        !is_supported_audio_name(name),
{
    lemma_no_dot_after_start(name);
}

/// A track's title is its file name with only the last extension removed: the
/// text before the name's last `.`, for a `.` that does not start the name.
pub proof fn lemma_title_drops_only_last_extension(name: Seq<char>, i: int)
    requires
        is_last_dot(name, i),
        i > 0,
        name != seq!['.', '.'],
    ensures
        title_of(name) == name.subrange(0, i),
{
    lemma_last_index_is(name, i);
}

/// A file name with no `.` after its first character is its own title, and an
/// empty name gives the title "Unknown Track".
pub proof fn lemma_title_without_extension(name: Seq<char>)
    requires
        forall|j: int| 0 < j < name.len() ==> name[j] != '.',
    ensures
        name.len() > 0 ==> title_of(name) == name,
        name.len() == 0 ==> title_of(name) == "Unknown Track"@,
{
    lemma_no_dot_after_start(name);
    if name.len() == 2 {
        assert(name[1] != '.');
        assert(!is_dot_dot(name));
    }
}

/// A playable file of the music library. The library is laid out as
/// `<artist>/<album>/<file>` under the music folder.
#[derive(Clone, Debug)]
pub struct Track {
    pub path: String,
    pub artist: String,
    pub album: String,
    pub title: String,
    /// Whole seconds of the track's length; 0 with 0 nanoseconds when unknown.
    pub duration_secs: u64,
    pub duration_nanos: u32,
}

/// The `i`-th path component below the music folder, unless it is missing or empty.
pub open spec fn label_at(components: Seq<Seq<char>>, i: int, fallback: Seq<char>) -> Seq<char> {
    if 0 <= i < components.len() && components[i].len() > 0 {
        components[i]
    } else {
        fallback
    }
}

/// A track's title: the file's stem, unless it is empty.
pub open spec fn title_of(file_name: Seq<char>) -> Seq<char> {
    if stem_of(file_name).len() > 0 {
        stem_of(file_name)
    } else {
        "Unknown Track"@
    }
}

pub open spec fn component_views(components: Seq<String>) -> Seq<Seq<char>> {
    components.map_values(|c: String| c@)
}

fn label_from(components: &Vec<String>, i: usize, fallback: &str) -> (r: String)
    ensures
        r@ == label_at(component_views(components@), i as int, fallback@),
{
    if i < components.len() && !components[i].as_str().is_empty() {
        components[i].clone()
    } else {
        fallback.to_owned()
    }
}

impl Track {
    /// The track for an audio file found while walking the music folder.
    /// `components` are the parts of its path below the music folder, the file name
    /// last; the first names the artist and the second the album.
    pub fn from_entry(
        path: String,
        components: &Vec<String>,
        file_name: &str,
        duration_secs: u64,
        duration_nanos: u32,
    ) -> (t: Track)
        ensures
            t.path@ == path@,
            t.artist@ == label_at(component_views(components@), 0, "Unknown Artist"@),
            t.album@ == label_at(component_views(components@), 1, "Unknown Album"@),
            t.title@ == title_of(file_name@),
            t.duration_secs == duration_secs,
            t.duration_nanos == duration_nanos,
    {
        let artist = label_from(components, 0, "Unknown Artist");
        let album = label_from(components, 1, "Unknown Album");
        let stem = file_stem(file_name);
        let title = if stem.as_str().is_empty() {
            "Unknown Track".to_owned()
        } else {
            stem
        };
        Track { path, artist, album, title, duration_secs, duration_nanos }
    }
}

/// The picture that `image::load_from_memory` decodes from `bytes`, as RGBA8:
/// width, height and the pixels row by row, four bytes each; `None` when the bytes
/// are not an image of a supported format.
pub uninterp spec fn decoded_rgba8(bytes: Seq<u8>) -> Option<(u32, u32, Seq<u8>)>;

/// Decodes an embedded picture.
///
/// Calls `image::load_from_memory`, which guesses the format from the bytes and
/// decodes them, and on success `DynamicImage::to_rgba8`, returning its width,
/// height and raw pixels (`ImageBuffer::into_raw`); an error becomes `None`. The
/// contract only names the result: it is the same for the same bytes. Malformed
/// input gives an error rather than a panic, and decoding is bounded by the
/// crate's default allocation limit; a failed allocation aborts the process, which
/// no precondition can rule out.
#[verifier::external_body]
pub fn decode_rgba8(bytes: &[u8]) -> (r: Option<(u32, u32, Vec<u8>)>)
    ensures
        r is None <==> decoded_rgba8(bytes@) is None,
        r matches Some(d) ==> decoded_rgba8(bytes@) == Some((d.0, d.1, d.2@)),
{
    match image::load_from_memory(bytes) {
        Ok(img) => {
            let rgba = img.to_rgba8();
            Some((rgba.width(), rgba.height(), rgba.into_raw()))
        },
        Err(_) => None,
    }
}

pub open spec fn picture_views(pictures: Seq<Vec<u8>>) -> Seq<Seq<u8>> {
    pictures.map_values(|p: Vec<u8>| p@)
}

pub open spec fn opt_pictures(pictures: Option<&Vec<Vec<u8>>>) -> Option<Seq<Seq<u8>>> {
    match pictures {
        Some(p) => Some(picture_views(p@)),
        None => None,
    }
}

/// The cover art of a track: the first picture of its primary tag, or of its first
/// tag when there is no primary tag, decoded. `None` when there is no tag, the tag
/// has no picture, or the picture does not decode.
pub open spec fn cover_of(
    primary_tag: Option<Seq<Seq<u8>>>,
    first_tag: Option<Seq<Seq<u8>>>,
) -> Option<(u32, u32, Seq<u8>)> {
    let tag = if primary_tag is Some {
        primary_tag
    } else {
        first_tag
    };
    match tag {
        None => None,
        Some(pictures) => if pictures.len() == 0 {
            None
        } else {
            decoded_rgba8(pictures[0])
        },
    }
}

/// The cover art of a track, from the pictures of its tags: `primary_tag` holds
/// the pictures of the file's primary tag and `first_tag` those of its first tag,
/// each `None` when the file has no such tag.
pub fn cover_image(
    primary_tag: Option<&Vec<Vec<u8>>>,
    first_tag: Option<&Vec<Vec<u8>>>,
) -> (r: Option<(u32, u32, Vec<u8>)>)
    ensures
        r is None <==> cover_of(opt_pictures(primary_tag), opt_pictures(first_tag)) is None,
        r matches Some(d) ==> cover_of(opt_pictures(primary_tag), opt_pictures(first_tag))
            == Some((d.0, d.1, d.2@)),
{
    let tag = match primary_tag {
        Some(p) => Some(p),
        None => first_tag,
    };
    match tag {
        None => None,
        Some(pictures) => {
            if pictures.len() == 0 {
                None
            } else {
                assert(picture_views(pictures@)[0] == pictures@[0]@);
                decode_rgba8(pictures[0].as_slice())
            }
        },
    }
}

} // verus!
