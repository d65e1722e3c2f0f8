//! The addresses under which a game is reached, and the picture that
//! invites to it.

use vstd::prelude::*;

verus! {

#[verifier::external_type_specification]
#[verifier::external_body]
pub struct ExQRCodeError(qrcode_generator::QRCodeError);

/// The picture of `text` as a QR code with the lowest error correction, as
/// a PNG file `size` pixels wide and high, or `None` where the `qrcode-generator`
/// crate makes none: the text is too long, or the size does not fit it.
pub uninterp spec fn qr_png(text: Seq<char>, size: usize) -> Option<Seq<u8>>;

/// `qrcode_generator::to_png_to_vec` with `QrCodeEcc::Low`. The picture is as
/// large in memory as it is wide times high, so the size is kept small.
#[verifier::external_body]
fn engine_qr_png(text: &str, size: usize) -> (png: Result<Vec<u8>, qrcode_generator::QRCodeError>)
    requires
        size <= 4096,
    ensures
        match png {
            Ok(bytes) => qr_png(text@, size) == Some(bytes@),
            Err(_) => qr_png(text@, size) is None,
        },
{
    qrcode_generator::to_png_to_vec(text, qrcode_generator::QrCodeEcc::Low, size)
}

/// The width and height of the invitation picture, in pixels.
pub const QR_SIZE: usize = 1024;

/// The path of the page of the game `id`.
pub open spec fn spec_join_path(id: Seq<char>) -> Seq<char> {
    "/"@ + id + "/static/index.html"@
}

/// The address of the page of the game `id`.
pub open spec fn spec_join_url(id: Seq<char>) -> Seq<char> {
    "http://ouijachess.tech"@ + spec_join_path(id)
}

/// The path of the page of the game `id`: where a player is sent once the
/// game is created.
pub fn join_path(id: &str) -> (path: String)
    ensures
        path@ == spec_join_path(id@),
{
    let mut path = "/".to_owned();
    path.append(id);
    path.append("/static/index.html");
    path
}

/// The address of the page of the game `id`.
pub fn join_url(id: &str) -> (url: String)
    ensures
        url@ == spec_join_url(id@),
{
    let mut url = "http://ouijachess.tech".to_owned();
    let path = join_path(id);
    url.append(path.as_str());
    url
}

/// The invitation to the game `id`: the address of its page as a QR code,
/// in a PNG file. `None` where the identifier is too long for a QR code.
pub fn join_qrcode(id: &str) -> (png: Option<Vec<u8>>)
    ensures
        match png {
            Some(bytes) => qr_png(spec_join_url(id@), QR_SIZE) == Some(bytes@),
            None => qr_png(spec_join_url(id@), QR_SIZE) is None,
        },
{
    let url = join_url(id);
    match engine_qr_png(url.as_str(), QR_SIZE) {
        Ok(bytes) => Some(bytes),
        Err(_) => None,
    }
}

/// The address tried when a file is not found under `uri`: the same with
/// `.html` behind it.
pub fn html_fallback(uri: &str) -> (fallback: String)
    ensures
        fallback@ == uri@ + ".html"@,
{
    let mut fallback = uri.to_owned();
    fallback.append(".html");
    fallback
}

} // verus!
