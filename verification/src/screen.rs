//! Decisions of the information screen: which layout and pane to show, how
//! the slideshow steps, and how a pasted Google Slides link becomes the
//! embedded player's URL.

use vstd::prelude::*;

use vstd::arithmetic::div_mod::{lemma_mod_add_multiples_vanish, lemma_mod_self_0, lemma_small_mod};

use crate::models::{Settings, Slide};
use crate::text::{decimal, decimal_string, ends_with, has_suffix, str_eq};

verus! {

/// How long each uploaded slide is shown, in milliseconds.
pub const SLIDE_INTERVAL_MS: i32 = 3000;

/// How often the mixed layout switches between slides and calendar, in
/// milliseconds.
pub const PANE_SWITCH_INTERVAL_MS: i32 = 15000;

/// How often the live presentation reloads to pick up edits, in
/// milliseconds. Google republishes an edited presentation on its own after
/// a short delay, so this only bounds how stale the screen can get; each
/// reload also restarts the deck from its first slide, which is why this
/// isn't lower.
pub const LIVE_RELOAD_INTERVAL_MS: i32 = 180000;

/// Query string that makes the embedded Google Slides player start at once,
/// loop, and advance every three seconds.
pub open spec fn embed_query() -> Seq<char> {
    "/embed?start=true&loop=true&delayms=3000"@
}

/// Characters that end the path part of a link.
pub open spec fn ends_path(c: char) -> bool {
    c == '#' || c == '?'
}

/// Index of the first `#` or `?` in `s` at or after `i`, or the length of
/// `s` when there is none.
pub open spec fn path_end_from(s: Seq<char>, i: int) -> int
    decreases s.len() - i,
{
    if i >= s.len() {
        s.len() as int
    } else if ends_path(s[i]) {
        i
    } else {
        path_end_from(s, i + 1)
    }
}

/// The part of a link before its fragment or query string.
pub open spec fn path_part(s: Seq<char>) -> Seq<char> {
    s.subrange(0, path_end_from(s, 0))
}

/// `s` without any trailing `/`.
pub open spec fn trim_slashes(s: Seq<char>) -> Seq<char>
    decreases s.len(),
{
    if s.len() > 0 && s.last() == '/' {
        trim_slashes(s.drop_last())
    } else {
        s
    }
}

/// `b` without the first of the view suffixes `/edit`, `/pub`, `/embed`,
/// `/present`, `/preview` (tried in that order) that it ends with.
pub open spec fn strip_view_suffix(b: Seq<char>) -> Seq<char> {
    if has_suffix(b, "/edit"@) {
        b.subrange(0, b.len() - "/edit"@.len())
    } else if has_suffix(b, "/pub"@) {
        b.subrange(0, b.len() - "/pub"@.len())
    } else if has_suffix(b, "/embed"@) {
        b.subrange(0, b.len() - "/embed"@.len())
    } else if has_suffix(b, "/present"@) {
        b.subrange(0, b.len() - "/present"@.len())
    } else if has_suffix(b, "/preview"@) {
        b.subrange(0, b.len() - "/preview"@.len())
    } else {
        b
    }
}

/// The presentation's address: the link's path, without trailing slashes
/// and without the view it was opened in.
pub open spec fn presentation_base(url: Seq<char>) -> Seq<char> {
    strip_view_suffix(trim_slashes(path_part(url)))
}

/// The embedded-player URL for a Google Slides link.
pub open spec fn embed_url(url: Seq<char>) -> Seq<char> {
    presentation_base(url) + embed_query()
}

/// Turns whatever Google Slides link was pasted into the settings (an
/// `/edit` link from the address bar, a published `/pub` link, or already an
/// `/embed` link) into the embedded-player URL with auto-advance and looping.
pub fn google_slides_embed_url(url: &str) -> (res: String)
    ensures
        res@ == embed_url(url@),
{
    let n = url.unicode_len();
    let mut end: usize = 0;
    while end < n && !(url.get_char(end) == '#' || url.get_char(end) == '?')
        invariant
            n == url@.len(),
            end <= n,
            path_end_from(url@, 0) == path_end_from(url@, end as int),
        decreases n - end,
    {
        end = end + 1;
    }
    assert(path_part(url@) == url@.subrange(0, end as int));
    while end > 0 && url.get_char(end - 1) == '/'
        invariant
            n == url@.len(),
            end <= n,
            trim_slashes(path_part(url@)) == trim_slashes(url@.subrange(0, end as int)),
        decreases end,
    {
        assert(url@.subrange(0, end as int).drop_last() =~= url@.subrange(0, end - 1));
        end = end - 1;
    }
    assert(trim_slashes(url@.subrange(0, end as int)) == url@.subrange(0, end as int)) by {
        assert(end > 0 ==> url@.subrange(0, end as int).last() == url@[end - 1]);
    }
    let base = url.substring_char(0, end);
    let stripped = strip_view_suffix_exec(base);
    String::from_str(stripped).concat("/embed?start=true&loop=true&delayms=3000")
}

fn strip_suffix_len<'a>(b: &'a str, k: usize) -> (res: &'a str)
    requires
        k <= b@.len(),
    ensures
        res@ == b@.subrange(0, b@.len() - k),
{
    let n = b.unicode_len();
    b.substring_char(0, n - k)
}

fn strip_view_suffix_exec<'a>(b: &'a str) -> (res: &'a str)
    ensures
        res@ == strip_view_suffix(b@),
{
    if ends_with(b, "/edit") {
        strip_suffix_len(b, "/edit".unicode_len())
    } else if ends_with(b, "/pub") {
        strip_suffix_len(b, "/pub".unicode_len())
    } else if ends_with(b, "/embed") {
        strip_suffix_len(b, "/embed".unicode_len())
    } else if ends_with(b, "/present") {
        strip_suffix_len(b, "/present".unicode_len())
    } else if ends_with(b, "/preview") {
        strip_suffix_len(b, "/preview".unicode_len())
    } else {
        b
    }
}


proof fn lemma_path_end_no_stop(s: Seq<char>, i: int)
    requires
        0 <= i <= s.len(),
    ensures
        i <= path_end_from(s, i) <= s.len(),
        forall|j: int| i <= j < path_end_from(s, i) ==> !ends_path(s[j]),
    decreases s.len() - i,
{
    if i < s.len() && !ends_path(s[i]) {
        lemma_path_end_no_stop(s, i + 1);
    }
}

proof fn lemma_path_end_at(s: Seq<char>, i: int, k: int)
    requires
        0 <= i <= k < s.len(),
        ends_path(s[k]),
        forall|j: int| i <= j < k ==> !ends_path(s[j]),
    ensures
        path_end_from(s, i) == k,
    decreases k - i,
{
    if i < k {
        lemma_path_end_at(s, i + 1, k);
    }
}

proof fn lemma_trim_slashes_prefix(s: Seq<char>)
    ensures
        trim_slashes(s).len() <= s.len(),
        trim_slashes(s) == s.subrange(0, trim_slashes(s).len() as int),
    decreases s.len(),
{
    if s.len() > 0 && s.last() == '/' {
        lemma_trim_slashes_prefix(s.drop_last());
        assert(s.drop_last().subrange(0, trim_slashes(s).len() as int) =~= s.subrange(
            0,
            trim_slashes(s).len() as int,
        ));
    } else {
        assert(s.subrange(0, s.len() as int) =~= s);
    }
}

proof fn lemma_strip_view_suffix_prefix(b: Seq<char>)
    ensures
        strip_view_suffix(b).len() <= b.len(),
        strip_view_suffix(b) == b.subrange(0, strip_view_suffix(b).len() as int),
{
    assert(b.subrange(0, b.len() as int) =~= b);
}

/// Converting a link that is already an embedded-player URL changes nothing:
/// the conversion is idempotent, so a URL stored in either form shows the
/// same presentation in the same way.
pub proof fn lemma_embed_url_idempotent(url: Seq<char>)
    ensures
        embed_url(embed_url(url)) == embed_url(url),
{
    let p = path_part(url);
    let t = trim_slashes(p);
    let b = presentation_base(url);
    lemma_path_end_no_stop(url, 0);
    lemma_trim_slashes_prefix(p);
    lemma_strip_view_suffix_prefix(t);
    assert(forall|j: int| 0 <= j < b.len() ==> b[j] == url[j]);
    assert(forall|j: int| 0 <= j < b.len() ==> !ends_path(b[j]));
    reveal_strlit("/embed?start=true&loop=true&delayms=3000");
    reveal_strlit("/edit");
    reveal_strlit("/pub");
    reveal_strlit("/embed");
    let out = b + embed_query();
    assert(forall|j: int| 0 <= j < b.len() ==> out[j] == b[j]);
    assert(out[b.len() + 6int] == '?');
    assert(forall|j: int| b.len() <= j < b.len() + 6 ==> !ends_path(out[j]));
    lemma_path_end_at(out, 0, b.len() + 6int);
    let p2 = path_part(out);
    assert(p2 =~= b + "/embed"@);
    assert(p2.last() == 'd');
    assert(trim_slashes(p2) == p2);
    assert(p2.subrange(p2.len() - 5, p2.len() as int) !~= "/edit"@) by {
        assert(p2.subrange(p2.len() - 5, p2.len() as int)[0] == 'e');
    }
    assert(p2.subrange(p2.len() - 4, p2.len() as int) !~= "/pub"@) by {
        assert(p2.subrange(p2.len() - 4, p2.len() as int)[0] == 'm');
    }
    assert(p2.subrange(p2.len() - 6, p2.len() as int) =~= "/embed"@);
    assert(strip_view_suffix(p2) =~= b);
}


/// The slide shown after slide `index` of `len`: the next one, wrapping
/// around from the last to the first.
pub open spec fn next_index(index: int, len: int) -> int {
    (index + 1) % len
}

/// The slide shown before slide `index` of `len`: the previous one,
/// wrapping around from the first to the last.
pub open spec fn previous_index(index: int, len: int) -> int {
    (index + len - 1) % len
}

/// The slide after slide `index` of a slideshow of `len` slides.
pub fn next_slide_index(index: usize, len: usize) -> (res: usize)
    requires
        index < len,
    ensures
        res == next_index(index as int, len as int),
        res < len,
{
    proof {
        if index + 1 < len {
            lemma_small_mod((index + 1) as nat, len as nat);
        } else {
            lemma_mod_self_0(len as int);
        }
    }
    if index + 1 == len {
        0
    } else {
        index + 1
    }
}

/// The slide before slide `index` of a slideshow of `len` slides.
pub fn previous_slide_index(index: usize, len: usize) -> (res: usize)
    requires
        index < len,
    ensures
        res == previous_index(index as int, len as int),
        res < len,
{
    proof {
        if index == 0 {
            lemma_small_mod((len - 1) as nat, len as nat);
        } else {
            lemma_mod_add_multiples_vanish((index - 1) as int, len as int);
            lemma_small_mod((index - 1) as nat, len as nat);
        }
    }
    if index == 0 {
        len - 1
    } else {
        index - 1
    }
}

/// Stepping forward and then back (or back and then forward) returns to the
/// slide one started from, so the "Next" and "Previous" buttons undo each
/// other.
pub proof fn lemma_slide_steps_undo(index: int, len: int)
    requires
        0 <= index < len,
    ensures
        0 <= next_index(index, len) < len,
        0 <= previous_index(index, len) < len,
        previous_index(next_index(index, len), len) == index,
        next_index(previous_index(index, len), len) == index,
{
    lemma_small_mod(index as nat, len as nat);
    if index + 1 == len {
        lemma_mod_self_0(len);
        lemma_small_mod((len - 1) as nat, len as nat);
    } else {
        lemma_small_mod((index + 1) as nat, len as nat);
        lemma_mod_add_multiples_vanish(index, len);
    }
    if index == 0 {
        lemma_small_mod((len - 1) as nat, len as nat);
    } else {
        lemma_mod_add_multiples_vanish(index - 1, len);
        lemma_small_mod((index - 1) as nat, len as nat);
    }
}

/// The two layouts of the screen.
#[derive(Debug, Clone, Copy, PartialEq, Eq, Structural)]
pub enum ScreenLayout {
    /// Only the slideshow, filling the screen.
    FullscreenSlideshow,
    /// The slideshow alternating with the calendar, beside the departures.
    Mixed,
}

/// The layout a stored layout name selects: anything but
/// `"fullscreen_slideshow"` gives the mixed layout.
pub fn screen_layout(layout_type: &str) -> (res: ScreenLayout)
    ensures
        res == (if layout_type@ == "fullscreen_slideshow"@ {
            ScreenLayout::FullscreenSlideshow
        } else {
            ScreenLayout::Mixed
        }),
{
    if str_eq(layout_type, "fullscreen_slideshow") {
        ScreenLayout::FullscreenSlideshow
    } else {
        ScreenLayout::Mixed
    }
}

/// The presentation shown live, if live mode is on and a link is set.
pub fn live_url(settings: &Settings) -> (res: Option<String>)
    ensures
        res is Some <==> settings.live_mode && settings.live_slides_url@.len() > 0,
        res matches Some(u) ==> u == settings.live_slides_url,
{
    if settings.live_mode && !settings.live_slides_url.as_str().is_empty() {
        Some(settings.live_slides_url.clone())
    } else {
        None
    }
}

/// Which of its two contents the mixed layout's left pane is showing.
#[derive(Debug, Clone, Copy, PartialEq, Eq, Structural)]
pub enum Pane {
    Slide,
    Calendar,
}

/// The pane shown after the next fifteen-second switch.
pub fn toggle_pane(active: Pane) -> (res: Pane)
    ensures
        res != active,
{
    match active {
        Pane::Slide => Pane::Calendar,
        Pane::Calendar => Pane::Slide,
    }
}

/// What the mixed layout's left pane shows.
#[derive(Debug)]
pub enum LeftPane {
    /// The live presentation at this link.
    LiveSlides(String),
    /// The uploaded slides.
    Slideshow,
    /// The calendar.
    Calendar,
}

/// The left pane's content: on a slide turn, the live presentation when
/// one is set, else the uploaded slides; the calendar on a calendar turn,
/// and whenever there is nothing to show as slides.
pub fn left_pane(active: Pane, slide_count: usize, live_url: &Option<String>) -> (res: LeftPane)
    ensures
        (active == Pane::Slide && (slide_count > 0 || live_url is Some)) ==> (match *live_url {
            Some(u) => res matches LeftPane::LiveSlides(v) && v == u,
            None => res is Slideshow,
        }),
        !(active == Pane::Slide && (slide_count > 0 || live_url is Some)) ==> res is Calendar,
{
    let has_slides = slide_count > 0 || live_url.is_some();
    if active == Pane::Slide && has_slides {
        match live_url {
            Some(u) => LeftPane::LiveSlides(u.clone()),
            None => LeftPane::Slideshow,
        }
    } else {
        LeftPane::Calendar
    }
}

/// The "last updated" line above the departures.
pub fn last_update_text(last_update: &Option<String>) -> (res: String)
    ensures
        res@ == (match *last_update {
            Some(t) => "Senast uppdaterad: "@ + t@,
            None => "Senast uppdaterad: Aldrig"@,
        }),
{
    match last_update {
        Some(t) => String::from_str("Senast uppdaterad: ").concat(t.as_str()),
        None => String::from_str("Senast uppdaterad: Aldrig"),
    }
}

/// Where a slide's image is served: like everything the app serves, under
/// the `/konsol/` prefix.
pub open spec fn slide_image_path(id: Seq<char>, filetype: Seq<char>) -> Seq<char> {
    "/konsol/screen/slides/images/"@ + id + "."@ + filetype
}

/// Where the image of `slide` is served.
pub fn slide_image_src(slide: &Slide) -> (res: String)
    ensures
        res@ == slide_image_path(slide.id@, slide.filetype@),
{
    let mut src = String::from_str("/konsol/screen/slides/images/");
    src.append(slide.id.as_str());
    src.append(".");
    src.append(slide.filetype.as_str());
    src
}

/// The live presentation's frame address for the given reload count: the
/// changing cache-buster makes the frame reload and pick up edits.
pub fn live_frame_src(embed: &str, generation: u32) -> (res: String)
    ensures
        res@ == embed@ + "&cb="@ + decimal(generation as nat),
{
    let mut src = String::from_str(embed);
    src.append("&cb=");
    let g = decimal_string(generation as u64);
    src.append(g.as_str());
    src
}

/// The pane the mixed layout starts with: a slide turn.
pub fn initial_pane() -> (res: Pane)
    ensures
        res == Pane::Slide,
{
    Pane::Slide
}

/// The slide a slideshow starts with: the first.
pub fn initial_slide_index() -> (res: usize)
    ensures
        res == 0,
{
    0
}

} // verus!
