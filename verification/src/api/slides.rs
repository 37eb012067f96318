//! Uploading and deleting slides.

use chrono::Datelike;
use vstd::prelude::*;

use super::ApiError;
use crate::ids::{canonical_uuid, is_hyphenated_uuid, is_random_uuid, new_random_id, parsed_uuid};
use crate::models::{AuthenticatedUser, Slide, SlideDateTime};
use crate::session::require_auth;
use crate::text::{copy_opt_string, lossy_text, opt_chars, str_eq, utf8_lossy};

verus! {

/// A proleptic Gregorian leap year.
pub open spec fn is_leap_year(year: int) -> bool {
    year % 4 == 0 && (year % 100 != 0 || year % 400 == 0)
}

/// The number of days of a month.
pub open spec fn days_in_month(year: int, month: int) -> int {
    if month == 2 {
        if is_leap_year(year) {
            29
        } else {
            28
        }
    } else if month == 4 || month == 6 || month == 9 || month == 11 {
        30
    } else {
        31
    }
}

/// A date that `chrono::NaiveDate` can hold.
pub open spec fn is_calendar_date(year: i32, month: u32, day: u32) -> bool {
    &&& -262143 <= year <= 262142
    &&& 1 <= month <= 12
    &&& 1 <= day <= days_in_month(year as int, month as int)
}

/// The messages `chrono::ParseError` is displayed with.
pub open spec fn is_date_parse_message(m: Seq<char>) -> bool {
    ||| m == "input is out of range"@
    ||| m == "no possible date and time matching input"@
    ||| m == "input is not enough for unique date and time"@
    ||| m == "input contains invalid characters"@
    ||| m == "premature end of input"@
    ||| m == "trailing input"@
    ||| m == "bad or unsupported format string"@
}

/// What parsing a text as a `chrono::NaiveDate` gives: year, month and day,
/// or the parser's message.
pub uninterp spec fn parsed_date(s: Seq<char>) -> Result<(i32, u32, u32), Seq<char>>;

/// Calls `str::parse::<chrono::NaiveDate>` (a `YYYY-MM-DD` date, with the
/// leniency of chrono's parser) and reads the date's year, month and day,
/// or writes the error with `to_string`.
///
/// The result is named `parsed_date`. Besides that, this states what
/// chrono's source shows: an accepted date is a valid calendar date in
/// `NaiveDate`'s range, and an error is displayed with one of the seven
/// messages of `ParseError`. Which texts are accepted is left to the name.
#[verifier::external_body]
fn parse_date(s: &str) -> (res: Result<(i32, u32, u32), String>)
    ensures
        res matches Ok(d) ==> parsed_date(s@) is Ok && parsed_date(s@)->Ok_0 == d && is_calendar_date(
            d.0,
            d.1,
            d.2,
        ),
        res matches Err(m) ==> parsed_date(s@) is Err && parsed_date(s@)->Err_0 == m@
            && is_date_parse_message(m@),
{
    match s.parse::<chrono::NaiveDate>() {
        Ok(d) => Ok((d.year(), d.month(), d.day())),
        Err(e) => Err(e.to_string()),
    }
}

/// Midnight at the start of the date a text names, or why it names none.
pub fn parse_slide_date(s: &str) -> (res: Result<SlideDateTime, ApiError>)
    ensures
        parsed_date(s@) matches Ok(d) ==> (res matches Ok(t) && t == SlideDateTime::midnight_spec(
            d.0,
            d.1,
            d.2,
        )),
        parsed_date(s@) matches Err(m) ==> (res matches Err(ApiError::InvalidDate(e)) && e@ == m),
{
    match parse_date(s) {
        Ok((year, month, day)) => Ok(SlideDateTime::midnight(year, month, day)),
        Err(m) => Err(ApiError::InvalidDate(m)),
    }
}

/// One field of a submitted multipart form.
#[derive(Debug, Clone)]
pub struct FormField {
    /// The field's name (empty when it has none).
    pub name: String,
    /// The subtype of the field's content type (`png` for `image/png`), if
    /// it has a content type.
    pub content_subtype: Option<String>,
    /// The field's content.
    pub bytes: Vec<u8>,
}

/// The last field of `fields` named `name`.
pub open spec fn last_named(fields: Seq<FormField>, name: Seq<char>) -> Option<FormField>
    decreases fields.len(),
{
    if fields.len() == 0 {
        None
    } else if fields.last().name@ == name {
        Some(fields.last())
    } else {
        last_named(fields.drop_last(), name)
    }
}

/// The text of the last field named `name`, decoded as UTF-8 (invalid
/// sequences replaced).
pub open spec fn text_field(fields: Seq<FormField>, name: Seq<char>) -> Option<Seq<char>> {
    match last_named(fields, name) {
        Some(f) => Some(utf8_lossy(f.bytes@)),
        None => None,
    }
}

/// The parts of the slide upload form that were submitted.
pub struct SlideForm {
    pub caption: Option<String>,
    pub start: Option<String>,
    pub end: Option<String>,
    pub visible: Option<String>,
    /// The image's type, from the content type of the image field.
    pub image_type: Option<String>,
    pub image: Option<Vec<u8>>,
}

/// The bytes of an optional byte vector.
pub open spec fn opt_bytes(o: Option<Vec<u8>>) -> Option<Seq<u8>> {
    match o {
        Some(b) => Some(b@),
        None => None,
    }
}

/// The type of the last image field, if there is one and it has a type.
pub open spec fn image_type_field(fields: Seq<FormField>) -> Option<Seq<char>> {
    match last_named(fields, "imageFile"@) {
        Some(f) => opt_chars(f.content_subtype),
        None => None,
    }
}

/// The content of the last image field.
pub open spec fn image_field(fields: Seq<FormField>) -> Option<Seq<u8>> {
    match last_named(fields, "imageFile"@) {
        Some(f) => Some(f.bytes@),
        None => None,
    }
}

/// Reads the slide upload form: the caption, first and last day and the
/// "visible" checkbox as text, and the image with its type. Where a field
/// occurs more than once, the last occurrence counts; unknown fields are
/// ignored.
pub fn collect_slide_form(fields: &[FormField]) -> (res: SlideForm)
    ensures
        opt_chars(res.caption) == text_field(fields@, "caption"@),
        opt_chars(res.start) == text_field(fields@, "start"@),
        opt_chars(res.end) == text_field(fields@, "end"@),
        opt_chars(res.visible) == text_field(fields@, "visible"@),
        opt_chars(res.image_type) == image_type_field(fields@),
        opt_bytes(res.image) == image_field(fields@),
{
    let mut form = SlideForm { caption: None, start: None, end: None, visible: None, image_type: None, image: None };
    let n = fields.len();
    let mut i: usize = 0;
    while i < n
        invariant
            n == fields@.len(),
            i <= n,
            opt_chars(form.caption) == text_field(fields@.take(i as int), "caption"@),
            opt_chars(form.start) == text_field(fields@.take(i as int), "start"@),
            opt_chars(form.end) == text_field(fields@.take(i as int), "end"@),
            opt_chars(form.visible) == text_field(fields@.take(i as int), "visible"@),
            opt_chars(form.image_type) == image_type_field(fields@.take(i as int)),
            opt_bytes(form.image) == image_field(fields@.take(i as int)),
        decreases n - i,
    {
        let f = &fields[i];
        assert(fields@.take(i + 1).drop_last() =~= fields@.take(i as int));
        assert(fields@.take(i + 1).last() == fields@[i as int]);
        proof {
            reveal_strlit("imageFile");
            reveal_strlit("caption");
            reveal_strlit("start");
            reveal_strlit("end");
            reveal_strlit("visible");
            assert("caption"@[0] != "visible"@[0]);
            assert("caption"@ != "visible"@);
            assert("caption"@.len() != "imageFile"@.len());
            assert("caption"@.len() != "start"@.len());
            assert("caption"@.len() != "end"@.len());
            assert("start"@.len() != "imageFile"@.len());
            assert("start"@.len() != "end"@.len());
            assert("start"@.len() != "visible"@.len());
            assert("end"@.len() != "imageFile"@.len());
            assert("end"@.len() != "visible"@.len());
            assert("visible"@.len() != "imageFile"@.len());
        }
        let name = f.name.as_str();
        if str_eq(name, "imageFile") {
            form.image_type = copy_opt_string(&f.content_subtype);
            form.image = Some(vstd::slice::slice_to_vec(f.bytes.as_slice()));
        } else if str_eq(name, "caption") {
            form.caption = Some(lossy_text(f.bytes.as_slice()));
        } else if str_eq(name, "start") {
            form.start = Some(lossy_text(f.bytes.as_slice()));
        } else if str_eq(name, "end") {
            form.end = Some(lossy_text(f.bytes.as_slice()));
        } else if str_eq(name, "visible") {
            form.visible = Some(lossy_text(f.bytes.as_slice()));
        }
        i = i + 1;
    }
    assert(fields@.take(n as int) =~= fields@);
    form
}


/// A slide ready to be stored, with the image to save for it.
pub struct NewSlide {
    pub slide: Slide,
    pub image: Vec<u8>,
}

/// The first refusal an upload form meets: a missing caption, first day,
/// last day or image (in that order), then a first or last day that cannot
/// be read.
pub open spec fn upload_refusal(form: SlideForm) -> Option<ApiError> {
    if form.caption is None {
        Some(ApiError::MissingCaption)
    } else if form.start is None {
        Some(ApiError::MissingStartDate)
    } else if form.end is None {
        Some(ApiError::MissingEndDate)
    } else if form.image_type is None || form.image is None {
        Some(ApiError::MissingImageFile)
    } else {
        None
    }
}

/// Builds the slide an upload form describes, under a fresh random id. The
/// slide is shown from midnight of its first day to midnight of its last,
/// and only when the "visible" checkbox was sent as `true` (an unchecked box
/// is not sent at all).
pub fn slide_from_form(form: SlideForm) -> (res: Result<NewSlide, ApiError>)
    ensures
        upload_refusal(form) matches Some(e) ==> (res matches Err(r) && r == e),
        upload_refusal(form) is None ==> ({
            let start = parsed_date(form.start->0@);
            let end = parsed_date(form.end->0@);
            &&& (start matches Err(m) ==> (res matches Err(ApiError::InvalidDate(e)) && e@ == m))
            &&& (start is Ok ==> (end matches Err(m) ==> (res matches Err(ApiError::InvalidDate(e)) && e@ == m)))
            &&& (start matches Ok(s) ==> (end matches Ok(t) ==> (res matches Ok(n) && {
                &&& is_random_uuid(n.slide.id@)
                &&& n.slide.caption == form.caption->0
                &&& n.slide.start_date == SlideDateTime::midnight_spec(s.0, s.1, s.2)
                &&& n.slide.end_date == SlideDateTime::midnight_spec(t.0, t.1, t.2)
                &&& n.slide.active == (opt_chars(form.visible) == Some("true"@))
                &&& n.slide.filetype == form.image_type->0
                &&& n.image == form.image->0
            })))
        }),
{
    let id = new_random_id();
    let caption = match form.caption {
        Some(c) => c,
        None => return Err(ApiError::MissingCaption),
    };
    let start = match form.start {
        Some(s) => s,
        None => return Err(ApiError::MissingStartDate),
    };
    let end = match form.end {
        Some(e) => e,
        None => return Err(ApiError::MissingEndDate),
    };
    let active = match &form.visible {
        Some(v) => str_eq(v.as_str(), "true"),
        None => false,
    };
    let filetype = match form.image_type {
        Some(t) => t,
        None => return Err(ApiError::MissingImageFile),
    };
    let image = match form.image {
        Some(b) => b,
        None => return Err(ApiError::MissingImageFile),
    };
    let start_date = match parse_slide_date(start.as_str()) {
        Ok(d) => d,
        Err(e) => return Err(e),
    };
    let end_date = match parse_slide_date(end.as_str()) {
        Ok(d) => d,
        Err(e) => return Err(e),
    };
    Ok(NewSlide { slide: Slide { id, caption, start_date, end_date, active, filetype }, image })
}

/// The first refusal the fields of an upload form meet: a missing caption,
/// first day, last day or image (in that order).
pub open spec fn fields_refusal(fields: Seq<FormField>) -> Option<ApiError> {
    if text_field(fields, "caption"@) is None {
        Some(ApiError::MissingCaption)
    } else if text_field(fields, "start"@) is None {
        Some(ApiError::MissingStartDate)
    } else if text_field(fields, "end"@) is None {
        Some(ApiError::MissingEndDate)
    } else if image_type_field(fields) is None || image_field(fields) is None {
        Some(ApiError::MissingImageFile)
    } else {
        None
    }
}

/// The upload of a slide by the session's user: refused when nobody is
/// logged in, then when the request carries no multipart form, then as the
/// form's fields call for (see `fields_refusal` and `slide_from_form`).
pub fn upload_slide(current: Option<AuthenticatedUser>, fields: Option<&[FormField]>) -> (res: Result<
    NewSlide,
    ApiError,
>)
    ensures
        current is None ==> res matches Err(ApiError::NotLoggedIn),
        current is Some && fields is None ==> res matches Err(ApiError::NoMultipartData),
        current is Some && fields is Some ==> ({
            let fs = fields->0@;
            let start = parsed_date(text_field(fs, "start"@)->0);
            let end = parsed_date(text_field(fs, "end"@)->0);
            &&& (fields_refusal(fs) matches Some(e) ==> (res matches Err(r) && r == e))
            &&& (fields_refusal(fs) is None ==> {
                &&& (start matches Err(m) ==> (res matches Err(ApiError::InvalidDate(e)) && e@ == m))
                &&& (start is Ok ==> (end matches Err(m) ==> (res matches Err(ApiError::InvalidDate(e))
                    && e@ == m)))
                &&& (start matches Ok(s) ==> (end matches Ok(t) ==> (res matches Ok(n) && {
                    &&& is_random_uuid(n.slide.id@)
                    &&& Some(n.slide.caption@) == text_field(fs, "caption"@)
                    &&& n.slide.start_date == SlideDateTime::midnight_spec(s.0, s.1, s.2)
                    &&& n.slide.end_date == SlideDateTime::midnight_spec(t.0, t.1, t.2)
                    &&& n.slide.active == (text_field(fs, "visible"@) == Some("true"@))
                    &&& Some(n.slide.filetype@) == image_type_field(fs)
                    &&& Some(n.image@) == image_field(fs)
                })))
            })
        }),
{
    match require_auth(current) {
        Ok(_) => {},
        Err(e) => return Err(e),
    }
    let fields = match fields {
        Some(f) => f,
        None => return Err(ApiError::NoMultipartData),
    };
    let form = collect_slide_form(fields);
    slide_from_form(form)
}

/// The directory slide images are stored in.
pub const SLIDE_IMAGE_DIR: &'static str = "./slide_images";

/// The file a slide's image is stored in: the slide's id in the image
/// directory, with the image type as extension (none when the type is
/// empty). Slide ids are UUIDs and hold no dot of their own.
pub open spec fn slide_image_file_path(id: Seq<char>, filetype: Seq<char>) -> Seq<char> {
    if filetype.len() == 0 {
        SLIDE_IMAGE_DIR@ + "/"@ + id
    } else {
        SLIDE_IMAGE_DIR@ + "/"@ + id + "."@ + filetype
    }
}

/// The file the image of the slide with this id and image type is stored in.
pub fn slide_image_file(id: &str, filetype: &str) -> (res: String)
    ensures
        res@ == slide_image_file_path(id@, filetype@),
{
    let mut path = String::from_str(SLIDE_IMAGE_DIR);
    path.append("/");
    path.append(id);
    if filetype.unicode_len() > 0 {
        path.append(".");
        path.append(filetype);
    }
    path
}

/// Where storing an uploaded slide stands.
pub enum UploadState {
    /// The image is being written to `path`; the slide comes next.
    WritingImage { slide: Slide, path: String },
    /// The slide row is being inserted; its image is at `path`.
    InsertingSlide { path: String },
    /// The slide could not be stored; its image is being removed before
    /// the request is answered with `error`.
    RemovingImage { error: String },
    /// The request is answered.
    Finished,
}

/// What storing an uploaded slide reports back.
pub enum UploadEvent {
    ImageWritten(Result<(), String>),
    SlideInserted(Result<Slide, String>),
    ImageRemoved(Result<(), String>),
}

/// What storing an uploaded slide asks for next.
pub enum UploadAction {
    /// Write these bytes to the file at `path`.
    WriteImage { path: String, bytes: Vec<u8> },
    /// Insert this slide row.
    InsertSlide(Slide),
    /// Remove the file at this path (its outcome does not change the answer).
    RemoveImage(String),
    /// Answer the request.
    Answer(Result<Slide, String>),
}

/// The event the state waits for.
pub open spec fn upload_expects(state: UploadState, event: UploadEvent) -> bool {
    match state {
        UploadState::WritingImage { .. } => event is ImageWritten,
        UploadState::InsertingSlide { .. } => event is SlideInserted,
        UploadState::RemovingImage { .. } => event is ImageRemoved,
        UploadState::Finished => false,
    }
}

/// The next state and action: a written image is followed by the slide
/// row; a stored row answers with the slide; a row that could not be stored
/// has its image removed, and then the request fails with the error. A
/// failed write fails the request at once (nothing was written).
pub open spec fn upload_next(state: UploadState, event: UploadEvent) -> (UploadState, UploadAction) {
    match (state, event) {
        (UploadState::WritingImage { slide, path }, UploadEvent::ImageWritten(Ok(()))) => (
            UploadState::InsertingSlide { path },
            UploadAction::InsertSlide(slide),
        ),
        (UploadState::WritingImage { .. }, UploadEvent::ImageWritten(Err(e))) => (
            UploadState::Finished,
            UploadAction::Answer(Err(e)),
        ),
        (UploadState::InsertingSlide { .. }, UploadEvent::SlideInserted(Ok(s))) => (
            UploadState::Finished,
            UploadAction::Answer(Ok(s)),
        ),
        (UploadState::InsertingSlide { path }, UploadEvent::SlideInserted(Err(e))) => (
            UploadState::RemovingImage { error: e },
            UploadAction::RemoveImage(path),
        ),
        (UploadState::RemovingImage { error }, UploadEvent::ImageRemoved(_)) => (
            UploadState::Finished,
            UploadAction::Answer(Err(error)),
        ),
        (st, _) => (st, UploadAction::Answer(Err(arbitrary()))),
    }
}

/// Starts storing an accepted upload: its image is written first, to the
/// file named after the slide.
pub fn begin_upload(new: NewSlide) -> (res: (UploadState, UploadAction))
    ensures
        res.0 matches UploadState::WritingImage { slide, path } && slide == new.slide && path@
            == slide_image_file_path(new.slide.id@, new.slide.filetype@),
        res.1 matches UploadAction::WriteImage { path, bytes } && path@ == slide_image_file_path(
            new.slide.id@,
            new.slide.filetype@,
        ) && bytes == new.image,
{
    let path = slide_image_file(new.slide.id.as_str(), new.slide.filetype.as_str());
    let action = UploadAction::WriteImage { path: path.clone(), bytes: new.image };
    (UploadState::WritingImage { slide: new.slide, path }, action)
}

/// Takes storing an upload one step further with what the last action
/// reported.
pub fn upload_step(state: UploadState, event: UploadEvent) -> (res: (UploadState, UploadAction))
    requires
        upload_expects(state, event),
    ensures
        res == upload_next(state, event),
{
    match state {
        UploadState::WritingImage { slide, path } => match event {
            UploadEvent::ImageWritten(Ok(())) => (
                UploadState::InsertingSlide { path },
                UploadAction::InsertSlide(slide),
            ),
            UploadEvent::ImageWritten(Err(e)) => (UploadState::Finished, UploadAction::Answer(Err(e))),
            _ => {
                proof {
                    assert(false);
                }
                (UploadState::Finished, UploadAction::Answer(Err(String::new())))
            },
        },
        UploadState::InsertingSlide { path } => match event {
            UploadEvent::SlideInserted(Ok(s)) => (UploadState::Finished, UploadAction::Answer(Ok(s))),
            UploadEvent::SlideInserted(Err(e)) => (
                UploadState::RemovingImage { error: e },
                UploadAction::RemoveImage(path),
            ),
            _ => {
                proof {
                    assert(false);
                }
                (UploadState::Finished, UploadAction::Answer(Err(String::new())))
            },
        },
        UploadState::RemovingImage { error } => (UploadState::Finished, UploadAction::Answer(Err(error))),
        UploadState::Finished => {
            proof {
                assert(false);
            }
            (UploadState::Finished, UploadAction::Answer(Err(String::new())))
        },
    }
}

/// No orphan image: once an upload's image is written to its file, the
/// request either stores the slide and answers with it, or removes that same
/// file before it fails with the database's error, whatever the removal gave.
pub proof fn lemma_no_orphan_image(
    slide: Slide,
    path: String,
    inserted: Result<Slide, String>,
    removed: Result<(), String>,
)
    requires
        path@ == slide_image_file_path(slide.id@, slide.filetype@),
    ensures
        ({
            let (s1, a1) = upload_next(
                UploadState::WritingImage { slide, path },
                UploadEvent::ImageWritten(Ok(())),
            );
            let (s2, a2) = upload_next(s1, UploadEvent::SlideInserted(inserted));
            let (s3, a3) = upload_next(s2, UploadEvent::ImageRemoved(removed));
            &&& a1 == UploadAction::InsertSlide(slide)
            &&& (inserted matches Ok(s) ==> a2 == UploadAction::Answer(Ok(s)) && s2 is Finished)
            &&& (inserted matches Err(e) ==> (a2 matches UploadAction::RemoveImage(q) && q@ == slide_image_file_path(
                slide.id@,
                slide.filetype@,
            )) && a3 == UploadAction::Answer(Err(e)) && s3 is Finished)
        }),
{
}

/// The id of the slide to delete, in the form slides are stored under;
/// refused when nobody is logged in, then with the parser's message when it
/// is not a UUID.
pub fn delete_slide(current: Option<AuthenticatedUser>, id: &str) -> (res: Result<String, ApiError>)
    ensures
        current is None ==> res matches Err(ApiError::NotLoggedIn),
        current is Some ==> (parsed_uuid(id@) matches Ok(t) ==> (res matches Ok(v) && v@ == t)),
        current is Some ==> (parsed_uuid(id@) matches Err(m) ==> (res matches Err(
            ApiError::InvalidSlideId(e),
        ) && e@ == m)),
        current is Some && is_hyphenated_uuid(id@) ==> (res matches Ok(v) && v@ == id@),
{
    match require_auth(current) {
        Ok(_) => {},
        Err(e) => return Err(e),
    }
    match canonical_uuid(id) {
        Ok(t) => Ok(t),
        Err(m) => Err(ApiError::InvalidSlideId(m)),
    }
}

/// After a slide row was taken out of the database: the file of its image,
/// which is removed next, or the database's error (nothing is removed).
pub fn image_of_removed_slide(popped: Result<Slide, String>) -> (res: Result<String, String>)
    ensures
        popped matches Ok(s) ==> (res matches Ok(p) && p@ == slide_image_file_path(s.id@, s.filetype@)),
        popped matches Err(e) ==> res == Err::<String, String>(e),
{
    match popped {
        Ok(s) => Ok(slide_image_file(s.id.as_str(), s.filetype.as_str())),
        Err(e) => Err(e),
    }
}

} // verus!
