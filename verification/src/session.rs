//! The shared session state of the interactive client and its transitions:
//! character-level URL editing, URL normalization, metadata scrolling, the
//! key-event state machine, and the commit rules for fetch results.
//!
//! Concurrency lives outside this crate: the state sits behind a
//! mutual-exclusion lock, every mutation site calls one of the verified
//! transitions here while holding it, and fetch results are committed through
//! [`AppState::apply_fetch_outcome`] after the network work is done.

use vstd::prelude::*;

use crate::meta::{OGPInfo, OGPModel};
use crate::pixel::{Image, ImageModel};

verus! {

/// A key event, as the input loop sees it.
pub enum Key {
    /// A printable character.
    Char(char),
    Backspace,
    Left,
    Right,
    Up,
    Down,
    Enter,
    Esc,
    /// Any other key: no effect.
    Other,
}

/// What a key event asks the surrounding loop to do, besides the state
/// change already applied.
pub enum InputEffect {
    /// Nothing changed; no redraw is owed.
    Ignored,
    /// The state changed; signal a redraw.
    Redraw,
    /// The user submitted a non-empty URL: start a fetch for it.
    Fetch,
    /// The user asked to leave the session loop.
    Exit,
}

/// What one fetch-pipeline invocation produced: a metadata record with a
/// best-effort image, or the reason the document could not be retrieved.
pub enum FetchOutcome {
    Success { metadata: OGPInfo, image: Option<Image> },
    Failure { reason: String },
}

/// Mathematical model of an [`AppState`].
#[verifier::ext_equal]
pub ghost struct SessionModel {
    pub url: Seq<char>,
    pub cursor: int,
    pub metadata: Option<OGPModel>,
    pub image: Option<ImageModel>,
    pub error: Option<Seq<char>>,
    pub offset: int,
}

/// The single mutable state object of a session.
pub struct AppState {
    /// The user-edited input string, one slot per character.
    pub url: Vec<char>,
    /// The insertion point, always a valid index into `url`.
    pub cursor_position: usize,
    /// The last successful fetch result; stale values stay on failure.
    pub ogp_info: Option<OGPInfo>,
    /// The last successfully decoded image; same staleness rules.
    pub cached_image: Option<Image>,
    /// Why the last fetch failed, cleared by success or a field clear.
    pub error_message: Option<String>,
    /// Index of the first visible metadata row.
    pub metadata_offset: usize,
}

impl View for AppState {
    type V = SessionModel;

    open spec fn view(&self) -> SessionModel {
        SessionModel {
            url: self.url@,
            cursor: self.cursor_position as int,
            metadata: match self.ogp_info {
                Some(info) => Some(info@),
                None => None,
            },
            image: match self.cached_image {
                Some(img) => Some(img@),
                None => None,
            },
            error: match self.error_message {
                Some(msg) => Some(msg@),
                None => None,
            },
            offset: self.metadata_offset as int,
        }
    }
}

/// The scroll offset never leaves `[0, max(0, tag_count - 1)]`.
pub open spec fn scroll_in_bounds(offset: int, tag_count: int) -> bool {
    0 <= offset <= (if tag_count > 0 {
        tag_count - 1
    } else {
        0
    })
}

impl SessionModel {
    /// Rows of the current metadata record's tag list, zero when none is
    /// displayed.
    pub open spec fn tag_count(self) -> int {
        match self.metadata {
            Some(m) => m.metadata.len() as int,
            None => 0,
        }
    }

    /// The session invariant: the cursor indexes into the URL, the scroll
    /// offset stays under the tag count, and a cached image is a well-formed
    /// grid.
    pub open spec fn wf(self) -> bool {
        &&& 0 <= self.cursor <= self.url.len()
        &&& scroll_in_bounds(self.offset, self.tag_count())
        &&& (self.image matches Some(i) ==> i.wf())
    }
}

/// Inserting a character at the cursor, cursor moving past it.
pub open spec fn spec_insert_char(url: Seq<char>, cursor: int, c: char) -> (Seq<char>, int) {
    (url.insert(cursor, c), cursor + 1)
}

/// Removing the character before the cursor; nothing happens at the left
/// edge.
pub open spec fn spec_backspace(url: Seq<char>, cursor: int) -> (Seq<char>, int) {
    if cursor > 0 {
        (url.remove(cursor - 1), cursor - 1)
    } else {
        (url, cursor)
    }
}

/// One scroll-up input: the offset decrements unless already at the top.
pub open spec fn spec_scroll_up(offset: int) -> int {
    if offset > 0 {
        offset - 1
    } else {
        offset
    }
}

/// One scroll-down input: the offset increments while rows remain below.
pub open spec fn spec_scroll_down(offset: int, tag_count: int) -> int {
    if offset + 1 < tag_count {
        offset + 1
    } else {
        offset
    }
}

/// Clearing the URL field's results: metadata, image and error all gone, the
/// scroll offset reset, the URL text and cursor untouched.
pub open spec fn spec_clear_results(s: SessionModel) -> SessionModel {
    SessionModel { metadata: None, image: None, error: None, offset: 0, ..s }
}

/// A failed fetch: the error message is set, everything else — in particular
/// the last good metadata and image — stays.
pub open spec fn spec_apply_failure(s: SessionModel, reason: Seq<char>) -> SessionModel {
    SessionModel { error: Some(reason), ..s }
}

/// The displayed scroll offset after a new record is installed: unchanged
/// when still valid, otherwise pulled back to the last row.
pub open spec fn clamp_offset(offset: int, tag_count: int) -> int {
    if tag_count == 0 {
        0
    } else if offset <= tag_count - 1 {
        offset
    } else {
        tag_count - 1
    }
}

/// A successful fetch: the metadata is replaced wholesale, the image is
/// replaced when the pipeline brought one (and kept when the best-effort
/// image step came back empty), the error is cleared, and the scroll offset
/// is clamped to the new tag count.
pub open spec fn spec_apply_success(
    s: SessionModel,
    m: OGPModel,
    img: Option<ImageModel>,
) -> SessionModel {
    SessionModel {
        metadata: Some(m),
        image: match img {
            Some(i) => Some(i),
            None => s.image,
        },
        error: None,
        offset: clamp_offset(s.offset, m.metadata.len() as int),
        ..s
    }
}

/// Model of the optional image carried by a [`FetchOutcome`].
pub open spec fn spec_image_model(img: Option<Image>) -> Option<ImageModel> {
    match img {
        Some(i) => Some(i@),
        None => None,
    }
}

/// Model of an optional metadata record.
pub open spec fn spec_record_model(record: Option<OGPInfo>) -> Option<OGPModel> {
    match record {
        Some(info) => Some(info@),
        None => None,
    }
}

/// Model of an optional message.
pub open spec fn spec_error_model(msg: Option<String>) -> Option<Seq<char>> {
    match msg {
        Some(m) => Some(m@),
        None => None,
    }
}

/// The minimal rendering snapshot: everything a frame shows, copied out of
/// the session in one lock acquisition so that painting can happen after the
/// lock is released — a repaint never holds up editing, and never sees a
/// torn half-written state.
pub struct Snapshot {
    /// The URL line as displayed, cursor mark already inserted.
    pub url_display: Vec<char>,
    /// The displayed metadata record, if any.
    pub ogp_info: Option<OGPInfo>,
    /// The displayed image, if any.
    pub cached_image: Option<Image>,
    /// The displayed error message, if any.
    pub error_message: Option<String>,
    /// Index of the first visible metadata row.
    pub metadata_offset: usize,
}

/// A fetch outcome is well formed when the image it carries, if any, is a
/// well-formed grid, and a failure names its cause in a non-empty reason.
pub open spec fn outcome_wf(outcome: FetchOutcome) -> bool {
    &&& (outcome matches FetchOutcome::Success { image: Some(i), .. } ==> i.wf())
    &&& (outcome matches FetchOutcome::Failure { reason } ==> reason@.len() > 0)
}

/// The key-event state machine: the state after the event and the effect
/// owed to the surrounding loop.
pub open spec fn spec_handle_key(s: SessionModel, key: Key) -> (SessionModel, InputEffect) {
    match key {
        Key::Char(c) => (
            {
                let (url, cursor) = spec_insert_char(s.url, s.cursor, c);
                SessionModel { url, cursor, ..s }
            },
            InputEffect::Redraw,
        ),
        Key::Backspace => if s.cursor > 0 {
            (
                {
                    let (url, cursor) = spec_backspace(s.url, s.cursor);
                    SessionModel { url, cursor, ..s }
                },
                InputEffect::Redraw,
            )
        } else {
            (s, InputEffect::Ignored)
        },
        Key::Left => if s.cursor > 0 {
            (SessionModel { cursor: s.cursor - 1, ..s }, InputEffect::Redraw)
        } else {
            (s, InputEffect::Ignored)
        },
        Key::Right => if s.cursor < s.url.len() {
            (SessionModel { cursor: s.cursor + 1, ..s }, InputEffect::Redraw)
        } else {
            (s, InputEffect::Ignored)
        },
        Key::Up => if s.offset > 0 {
            (SessionModel { offset: spec_scroll_up(s.offset), ..s }, InputEffect::Redraw)
        } else {
            (s, InputEffect::Ignored)
        },
        Key::Down => if s.offset + 1 < s.tag_count() {
            (
                SessionModel { offset: spec_scroll_down(s.offset, s.tag_count()), ..s },
                InputEffect::Redraw,
            )
        } else {
            (s, InputEffect::Ignored)
        },
        Key::Enter => if s.url.len() == 0 {
            (spec_clear_results(s), InputEffect::Redraw)
        } else {
            (s, InputEffect::Fetch)
        },
        Key::Esc => (s, InputEffect::Exit),
        Key::Other => (s, InputEffect::Ignored),
    }
}

impl AppState {
    /// A fresh session: empty URL, cursor at the start, nothing fetched yet.
    pub fn new() -> (s: AppState)
        ensures
            s@.url == Seq::<char>::empty(),
            s@.cursor == 0,
            s@.metadata is None,
            s@.image is None,
            s@.error is None,
            s@.offset == 0,
            s@.wf(),
    {
        AppState {
            url: Vec::new(),
            cursor_position: 0,
            ogp_info: None,
            cached_image: None,
            error_message: None,
            metadata_offset: 0,
        }
    }

    /// The URL a fetch is started with: unchanged when the text already has
    /// an `http://` or `https://` scheme, otherwise prefixed with `http://`.
    pub fn normalize_url(&self) -> (r: Vec<char>)
        ensures
            r@ == spec_normalize(self@.url),
    {
        if url_has_scheme(&self.url) {
            clone_chars(&self.url)
        } else {
            let mut r: Vec<char> = Vec::new();
            r.push('h');
            r.push('t');
            r.push('t');
            r.push('p');
            r.push(':');
            r.push('/');
            r.push('/');
            proof {
                reveal_strlit("http://");
                assert(r@ =~= "http://"@);
            }
            let mut i: usize = 0;
            while i < self.url.len()
                invariant
                    0 <= i <= self.url.len(),
                    r@ == "http://"@ + self.url@.take(i as int),
                decreases self.url.len() - i,
            {
                r.push(self.url[i]);
                proof {
                    assert(r@ =~= "http://"@ + self.url@.take(i as int + 1));
                }
                i = i + 1;
            }
            proof {
                assert(self.url@.take(self.url@.len() as int) =~= self.url@);
            }
            r
        }
    }

    /// Applies one key event to the session, returning the effect owed to
    /// the surrounding loop, exactly as [`spec_handle_key`] states. The
    /// session invariant is preserved by every event.
    pub fn handle_key(&mut self, key: Key) -> (effect: InputEffect)
        requires
            old(self)@.wf(),
        ensures
            final(self)@ == spec_handle_key(old(self)@, key).0,
            effect == spec_handle_key(old(self)@, key).1,
            final(self)@.wf(),
    {
        match key {
            Key::Char(c) => {
                let cursor = self.cursor_position;
                self.url.insert(cursor, c);
                proof {
                    assert(self.url@.len() == self.url.len());
                }
                self.cursor_position = cursor + 1;
                InputEffect::Redraw
            },
            Key::Backspace => {
                if self.cursor_position > 0 {
                    let cursor = self.cursor_position;
                    self.url.remove(cursor - 1);
                    self.cursor_position = cursor - 1;
                    InputEffect::Redraw
                } else {
                    InputEffect::Ignored
                }
            },
            Key::Left => {
                if self.cursor_position > 0 {
                    self.cursor_position = self.cursor_position - 1;
                    InputEffect::Redraw
                } else {
                    InputEffect::Ignored
                }
            },
            Key::Right => {
                if self.cursor_position < self.url.len() {
                    self.cursor_position = self.cursor_position + 1;
                    InputEffect::Redraw
                } else {
                    InputEffect::Ignored
                }
            },
            Key::Up => {
                if self.metadata_offset > 0 {
                    self.metadata_offset = self.metadata_offset - 1;
                    InputEffect::Redraw
                } else {
                    InputEffect::Ignored
                }
            },
            Key::Down => {
                let rows = match &self.ogp_info {
                    Some(info) => info.metadata.len(),
                    None => 0,
                };
                if self.metadata_offset + 1 < rows {
                    self.metadata_offset = self.metadata_offset + 1;
                    InputEffect::Redraw
                } else {
                    InputEffect::Ignored
                }
            },
            Key::Enter => {
                if self.url.len() == 0 {
                    self.clear_results();
                    InputEffect::Redraw
                } else {
                    InputEffect::Fetch
                }
            },
            Key::Esc => InputEffect::Exit,
            Key::Other => InputEffect::Ignored,
        }
    }

    /// The URL line as displayed: the text with a cursor mark inserted at
    /// the insertion point (or the bare text, should the cursor ever sit
    /// outside it).
    pub fn display_url(&self) -> (r: Vec<char>)
        ensures
            r@ == (if self@.cursor <= self@.url.len() {
                self@.url.insert(self@.cursor, '|')
            } else {
                self@.url
            }),
    {
        let mut r = clone_chars(&self.url);
        if self.cursor_position <= r.len() {
            r.insert(self.cursor_position, '|');
        }
        r
    }

    /// Copies the rendering snapshot out of the session: the cursor-marked
    /// URL line and the displayed record, image, error and scroll offset,
    /// each equal to the session's under the model. Meant to be taken under
    /// the lock, so the lock can be released before painting.
    pub fn snapshot(&self) -> (snap: Snapshot)
        ensures
            snap.url_display@ == (if self@.cursor <= self@.url.len() {
                self@.url.insert(self@.cursor, '|')
            } else {
                self@.url
            }),
            spec_record_model(snap.ogp_info) == self@.metadata,
            spec_image_model(snap.cached_image) == self@.image,
            spec_error_model(snap.error_message) == self@.error,
            snap.metadata_offset as int == self@.offset,
    {
        Snapshot {
            url_display: self.display_url(),
            ogp_info: match &self.ogp_info {
                Some(info) => Some(info.duplicate()),
                None => None,
            },
            cached_image: match &self.cached_image {
                Some(img) => Some(img.duplicate()),
                None => None,
            },
            error_message: match &self.error_message {
                Some(msg) => Some(msg.clone()),
                None => None,
            },
            metadata_offset: self.metadata_offset,
        }
    }

    /// Clears the fetched results — metadata, image, error message — and
    /// resets the scroll offset, as an empty-URL submit asks. The URL text
    /// and cursor stay.
    pub fn clear_results(&mut self)
        ensures
            final(self)@ == spec_clear_results(old(self)@),
            final(self)@.metadata is None,
            final(self)@.image is None,
            final(self)@.error is None,
            old(self)@.wf() ==> final(self)@.wf(),
    {
        self.ogp_info = None;
        self.cached_image = None;
        self.error_message = None;
        self.metadata_offset = 0;
    }

    /// Commits a fetch result. Success replaces the metadata, replaces the
    /// image when one was brought, and clears the error; failure only sets
    /// the error message, leaving the last good display untouched.
    pub fn apply_fetch_outcome(&mut self, outcome: FetchOutcome)
        requires
            old(self)@.wf(),
            outcome_wf(outcome),
        ensures
            (outcome matches FetchOutcome::Failure { reason } ==> final(self)@
                == spec_apply_failure(old(self)@, reason@)),
            (outcome is Failure ==> (final(self)@.error matches Some(e) && e.len() > 0)),
            (outcome matches FetchOutcome::Success { metadata, image } ==> final(self)@
                == spec_apply_success(old(self)@, metadata@, spec_image_model(image))),
            final(self)@.wf(),
    {
        match outcome {
            FetchOutcome::Success { metadata, image } => {
                let rows = metadata.metadata.len();
                if rows == 0 {
                    self.metadata_offset = 0;
                } else if self.metadata_offset > rows - 1 {
                    self.metadata_offset = rows - 1;
                }
                self.ogp_info = Some(metadata);
                match image {
                    Some(img) => {
                        self.cached_image = Some(img);
                    },
                    None => {},
                }
                self.error_message = None;
            },
            FetchOutcome::Failure { reason } => {
                self.error_message = Some(reason);
            },
        }
    }
}

/// Whether `p` is a prefix of `s`.
pub open spec fn has_prefix(s: Seq<char>, p: Seq<char>) -> bool {
    p.len() <= s.len() && s.subrange(0, p.len() as int) == p
}

/// Whether the text already carries one of the two accepted schemes.
pub open spec fn spec_has_scheme(s: Seq<char>) -> bool {
    has_prefix(s, "http://"@) || has_prefix(s, "https://"@)
}

/// URL normalization: pure text manipulation, never failing — a text without
/// a scheme is given `http://`.
pub open spec fn spec_normalize(s: Seq<char>) -> Seq<char> {
    if spec_has_scheme(s) {
        s
    } else {
        "http://"@ + s
    }
}

/// Whether the URL text starts with `http://` or `https://`.
fn url_has_scheme(url: &Vec<char>) -> (r: bool)
    ensures
        r == spec_has_scheme(url@),
{
    proof {
        reveal_strlit("http://");
        reveal_strlit("https://");
    }
    let n = url.len();
    let http = n >= 7 && url[0] == 'h' && url[1] == 't' && url[2] == 't' && url[3] == 'p'
        && url[4] == ':' && url[5] == '/' && url[6] == '/';
    let https = n >= 8 && url[0] == 'h' && url[1] == 't' && url[2] == 't' && url[3] == 'p'
        && url[4] == 's' && url[5] == ':' && url[6] == '/' && url[7] == '/';
    proof {
        if http {
            assert(url@.subrange(0, 7) =~= "http://"@);
        }
        if https {
            assert(url@.subrange(0, 8) =~= "https://"@);
        }
        if has_prefix(url@, "http://"@) {
            assert(forall|i: int| 0 <= i < 7 ==> url@[i] == "http://"@[i]);
        }
        if has_prefix(url@, "https://"@) {
            assert(forall|i: int| 0 <= i < 8 ==> url@[i] == "https://"@[i]);
        }
    }
    http || https
}

/// A fresh copy of the URL text.
fn clone_chars(v: &Vec<char>) -> (r: Vec<char>)
    ensures
        r@ == v@,
{
    let mut r: Vec<char> = Vec::new();
    let mut i: usize = 0;
    while i < v.len()
        invariant
            0 <= i <= v.len(),
            r@ == v@.take(i as int),
        decreases v.len() - i,
    {
        r.push(v[i]);
        proof {
            assert(r@ =~= v@.take(i as int + 1));
        }
        i = i + 1;
    }
    proof {
        assert(v@.take(v@.len() as int) =~= v@);
    }
    r
}

/// Inserting a character at any cursor position and immediately removing it
/// restores both the URL text and the cursor.
pub proof fn lemma_insert_then_backspace(url: Seq<char>, cursor: int, c: char)
    requires
        0 <= cursor <= url.len(),
    ensures
        spec_backspace(spec_insert_char(url, cursor, c).0, spec_insert_char(url, cursor, c).1)
            == (url, cursor),
{
    let inserted = url.insert(cursor, c);
    assert(inserted.remove(cursor) =~= url);
}

/// Normalizing is idempotent: a normalized URL already has a scheme, so a
/// second pass changes nothing.
pub proof fn lemma_normalize_idempotent(u: Seq<char>)
    ensures
        spec_normalize(spec_normalize(u)) == spec_normalize(u),
{
    reveal_strlit("http://");
    if !spec_has_scheme(u) {
        let n = "http://"@ + u;
        assert(n.subrange(0, 7) =~= "http://"@);
    }
}

/// A whole sequence of scroll inputs, applied front to back; `true` scrolls
/// up, `false` scrolls down.
pub open spec fn apply_scroll_inputs(offset: int, tag_count: int, inputs: Seq<bool>) -> int
    decreases inputs.len(),
{
    if inputs.len() == 0 {
        offset
    } else {
        let next = if inputs.first() {
            spec_scroll_up(offset)
        } else {
            spec_scroll_down(offset, tag_count)
        };
        apply_scroll_inputs(next, tag_count, inputs.drop_first())
    }
}

/// After any sequence of scroll-up and scroll-down inputs, for any tag
/// count, the offset still never exceeds `max(0, tag_count - 1)`.
pub proof fn lemma_scroll_offset_bounded(offset: int, tag_count: int, inputs: Seq<bool>)
    requires
        tag_count >= 0,
        scroll_in_bounds(offset, tag_count),
    ensures
        scroll_in_bounds(apply_scroll_inputs(offset, tag_count, inputs), tag_count),
    decreases inputs.len(),
{
    if inputs.len() > 0 {
        let next = if inputs.first() {
            spec_scroll_up(offset)
        } else {
            spec_scroll_down(offset, tag_count)
        };
        lemma_scroll_offset_bounded(next, tag_count, inputs.drop_first());
    }
}

/// A failed fetch leaves the last good metadata and image in place and sets
/// a non-empty error message; a successful fetch afterwards clears the error
/// and replaces the displayed fields.
pub proof fn lemma_failure_then_success(
    s: SessionModel,
    reason: Seq<char>,
    m: OGPModel,
    img: Option<ImageModel>,
)
    requires
        reason.len() > 0,
    ensures
        ({
            let failed = spec_apply_failure(s, reason);
            let recovered = spec_apply_success(failed, m, img);
            &&& failed.metadata == s.metadata
            &&& failed.image == s.image
            &&& failed.error matches Some(e) && e.len() > 0
            &&& recovered.error is None
            &&& recovered.metadata == Some(m)
            &&& (img matches Some(i) ==> recovered.image == Some(i))
            &&& (img is None ==> recovered.image == s.image)
        }),
{
}

} // verus!
