//! The capture command: grab the primary display, encode the pixels as a
//! PNG data URL, store the result, and say what to announce.

use crate::state::ScreenshotState;
use vstd::prelude::*;

verus! {

/// Why a capture did not produce a screenshot.
#[derive(Debug)]
pub enum CaptureError {
    /// Display enumeration succeeded but returned an empty list.
    NoScreensFound,
    /// A capture or encode step failed; the field carries its message.
    CaptureFailed(String),
}

impl CaptureError {
    /// The plain message the UI shell shows for this error.
    pub fn message(&self) -> (r: String)
        ensures
            self is NoScreensFound ==> r@ == "No screens found"@,
            self matches CaptureError::CaptureFailed(m) ==> r@ == m@,
    {
        match self {
            CaptureError::NoScreensFound => String::from_str("No screens found"),
            CaptureError::CaptureFailed(m) => m.clone(),
        }
    }
}

/// What base64's standard engine produces for a byte sequence.
pub uninterp spec fn base64_of(bytes: Seq<u8>) -> Seq<char>;

/// The longest byte buffer the base64 encoder is asked to handle; far above
/// any real screenshot, it keeps the encoder's output-size computation from
/// overflowing.
pub const MAX_PNG_LEN: usize = 0x4000_0000;

/// Relies on base64's `Engine::encode` on the standard padded engine
/// (`engine::general_purpose::STANDARD`): the result is standard base64 of
/// the input bytes and of nothing else, and an empty input encodes to an
/// empty string. The length bound keeps its output-size computation, which
/// panics on overflow, in range.
#[verifier::external_body]
fn base64_encode(bytes: &[u8]) -> (r: String)
    requires
        bytes@.len() <= MAX_PNG_LEN,
    ensures
        r@ == base64_of(bytes@),
        bytes@.len() == 0 ==> r@.len() == 0,
{
    base64::Engine::encode(&base64::engine::general_purpose::STANDARD, bytes)
}

/// The prefix every encoded capture carries: a data URL tagged as PNG.
pub open spec fn png_data_url_prefix() -> Seq<char> {
    "data:image/png;base64,"@
}

/// The data URL that presents a PNG byte buffer: the fixed MIME-tagged
/// prefix followed by the base64 payload.
pub open spec fn data_url_of(png: Seq<u8>) -> Seq<char> {
    png_data_url_prefix() + base64_of(png)
}

/// Whether a string starts with the PNG data-URL prefix.
pub open spec fn is_png_data_url(s: Seq<char>) -> bool {
    &&& s.len() >= png_data_url_prefix().len()
    &&& s.subrange(0, png_data_url_prefix().len() as int) == png_data_url_prefix()
}

/// Law: every encoded capture is a string carrying the PNG data-URL prefix,
/// whatever bytes the capture produced.
pub proof fn lemma_data_url_prefix(png: Seq<u8>)
    ensures
        is_png_data_url(data_url_of(png)),
{
    assert(data_url_of(png).subrange(0, png_data_url_prefix().len() as int)
        =~= png_data_url_prefix());
}

/// Converts PNG bytes to their base64 data URL.
pub fn encode_to_data_url(png_bytes: &[u8]) -> (r: String)
    requires
        png_bytes@.len() <= MAX_PNG_LEN,
    ensures
        r@ == data_url_of(png_bytes@),
{
    let b64 = base64_encode(png_bytes);
    String::from_str("data:image/png;base64,").concat(b64.as_str())
}

#[verifier::external_type_specification]
#[verifier::external_body]
pub struct ExScreen(screenshots::Screen);

#[verifier::external_type_specification]
#[verifier::external_body]
pub struct ExDynamicImage(screenshots::image::DynamicImage);

/// Relies on `screenshots::Screen::all`: enumerates the machine's displays,
/// first-listed first. The outcome depends on the display server, so nothing
/// more is assumed of it.
#[verifier::external_body]
fn all_screens() -> Result<Vec<screenshots::Screen>, String> {
    screenshots::Screen::all().map_err(|e| e.to_string())
}

/// Relies on `screenshots::Screen::capture`: reads the display's current
/// pixel contents. The outcome depends on what is on screen at the moment,
/// so nothing more is assumed of it.
#[verifier::external_body]
fn capture_screen(screens: &Vec<screenshots::Screen>, i: usize) -> Result<
    screenshots::image::DynamicImage,
    String,
>
    requires
        i < screens@.len(),
{
    match screens[i].capture() {
        Ok(img) => Ok(screenshots::image::DynamicImage::ImageRgba8(img)),
        Err(e) => Err(e.to_string()),
    }
}

/// Relies on image's `DynamicImage::write_to` with the PNG format: encodes
/// the pixels losslessly as PNG into the buffer, or reports the encoder's
/// error message.
#[verifier::external_body]
fn encode_png(image: &screenshots::image::DynamicImage) -> Result<Vec<u8>, String> {
    let mut png_bytes: Vec<u8> = Vec::new();
    let mut cursor = std::io::Cursor::new(&mut png_bytes);
    match image.write_to(&mut cursor, screenshots::image::ImageFormat::Png) {
        Ok(()) => Ok(png_bytes),
        Err(e) => Err(e.to_string()),
    }
}

/// Selects the primary display under the first-enumerated policy: an empty
/// display list is the `NoScreensFound` error, any other list yields its
/// first entry.
pub fn choose_primary(screen_count: usize) -> (r: Result<usize, CaptureError>)
    ensures
        screen_count == 0 ==> r == Err::<usize, CaptureError>(CaptureError::NoScreensFound),
        screen_count > 0 ==> r == Ok::<usize, CaptureError>(0usize),
{
    if screen_count == 0 {
        Err(CaptureError::NoScreensFound)
    } else {
        Ok(0)
    }
}

/// Captures the primary display and returns its pixels as PNG bytes.
///
/// Fails with `NoScreensFound` when no display is enumerated, and with
/// `CaptureFailed` when enumeration, capture or encoding reports an error;
/// there is no retry. Which of these happens depends on the machine, so the
/// contract promises only that a returned buffer is small enough to encode.
pub fn capture_screenshot_as_data_url() -> (r: Result<Vec<u8>, CaptureError>)
    ensures
        r matches Ok(png) ==> png@.len() <= MAX_PNG_LEN,
{
    let screens = match all_screens() {
        Ok(s) => s,
        Err(m) => { return Err(CaptureError::CaptureFailed(m)) },
    };
    let primary = match choose_primary(screens.len()) {
        Ok(i) => i,
        Err(e) => { return Err(e) },
    };
    let image = match capture_screen(&screens, primary) {
        Ok(img) => img,
        Err(m) => { return Err(CaptureError::CaptureFailed(m)) },
    };
    let png = match encode_png(&image) {
        Ok(p) => p,
        Err(m) => { return Err(CaptureError::CaptureFailed(m)) },
    };
    if png.len() <= MAX_PNG_LEN {
        Ok(png)
    } else {
        Err(CaptureError::CaptureFailed(String::from_str("captured image too large to encode")))
    }
}

/// An event for the UI shell to emit: its name and its string payload.
pub struct Notification {
    pub event: String,
    pub payload: String,
}

/// The name of the event announcing a fresh capture.
pub open spec fn screenshot_event() -> Seq<char> {
    "screenshot-taken"@
}

/// Stores the encoded screenshot in the application state and returns the
/// one notification to emit for it: the capture event carrying the same
/// data URL that was stored.
pub fn store_and_emit_screenshot(state: &mut ScreenshotState, data_url: &String) -> (n:
    Notification)
    ensures
        final(state)@ == Some(data_url@),
        n.event@ == screenshot_event(),
        n.payload@ == data_url@,
{
    state.store(data_url.clone());
    Notification { event: String::from_str("screenshot-taken"), payload: data_url.clone() }
}

/// The capture command: capture the primary display, encode the result as a
/// PNG data URL, store it, and return the URL with the notification to emit.
///
/// On success the store holds exactly the returned URL, which carries the
/// PNG data-URL prefix over some captured byte buffer. On any failure the
/// store is left untouched: nothing partial is ever stored.
pub fn take_screenshot(state: &mut ScreenshotState) -> (r: Result<
    (String, Notification),
    CaptureError,
>)
    ensures
        r matches Ok(out) ==> {
            &&& final(state)@ == Some(out.0@)
            &&& is_png_data_url(out.0@)
            &&& exists|png: Seq<u8>| out.0@ == data_url_of(png)
            &&& out.1.event@ == screenshot_event()
            &&& out.1.payload@ == out.0@
        },
        r is Err ==> final(state)@ == old(state)@,
{
    let png = match capture_screenshot_as_data_url() {
        Ok(p) => p,
        Err(e) => { return Err(e) },
    };
    let data_url = encode_to_data_url(png.as_slice());
    proof {
        lemma_data_url_prefix(png@);
        assert(data_url@ == data_url_of(png@));
    }
    let notification = store_and_emit_screenshot(state, &data_url);
    Ok((data_url, notification))
}

/// The background trigger's follow-up decision: show the preview only after
/// a successful capture; a failed capture is swallowed, with no preview and
/// no error surfaced.
pub fn trigger_followup(result: &Result<(String, Notification), CaptureError>) -> (show: bool)
    ensures
        show == (result is Ok),
{
    result.is_ok()
}

/// How long the background trigger waits before capturing, in milliseconds,
/// so the shortcut's key release can settle.
pub const TRIGGER_DELAY_MS: u64 = 100;

} // verus!
