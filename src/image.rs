use vstd::prelude::*;
use base64::Engine;

verus! {

/// One generated image, as the provider sends it: base64 text.
pub struct ImageGenerationData {
    pub b64_json: String,
}

/// The provider's reply to an image request.
pub struct ImageGenerationResponse {
    pub created: i32,
    pub data: Vec<ImageGenerationData>,
}

/// A model that generates images, by its provider's name for it.
pub struct ImageGenerationModel {
    pub model: String,
}

/// Why an image request failed.
#[derive(Debug, Clone, PartialEq)]
pub enum ImageGenerationError {
    /// The provider refused the request.
    ProviderError(String),
    /// The reply could not be read.
    ResponseError(String),
}

/// The bytes that a text encodes in standard base64 with padding, or nothing
/// where the text is no such encoding.
pub uninterp spec fn standard_base64_decoded(s: Seq<char>) -> Option<Seq<u8>>;

/// Relies on base64's `STANDARD` engine and `Engine::decode`: the bytes that
/// the text encodes, or an error where it is not valid padded standard
/// base64. The outcome depends on the text alone.
#[verifier::external_body]
fn decode_standard_base64(s: &str) -> (r: Result<Vec<u8>, String>)
    ensures
        r is Ok <==> standard_base64_decoded(s@) is Some,
        r is Ok ==> standard_base64_decoded(s@) == Some(r->Ok_0@),
{
    match base64::prelude::BASE64_STANDARD.decode(s) {
        Ok(bytes) => Ok(bytes),
        Err(e) => Err(e.to_string()),
    }
}

impl ImageGenerationModel {
    pub fn new(model: &str) -> (r: Self)
        ensures
            r.model@ == model@,
    {
        ImageGenerationModel { model: String::from_str(model) }
    }
}

/// The image of a reply once its text is decoded: the bytes, or a response
/// error that gives the decoder's reason.
pub fn decoded_image(decoded: Result<Vec<u8>, String>) -> (r: Result<Vec<u8>, ImageGenerationError>)
    ensures
        decoded is Ok <==> r is Ok,
        decoded is Ok ==> r->Ok_0@ == decoded->Ok_0@,
        decoded is Err ==> r->Err_0 is ResponseError && r->Err_0->ResponseError_0@ == "Failed to decode b64: "@
            + decoded->Err_0@,
{
    match decoded {
        Ok(bytes) => Ok(bytes),
        Err(reason) => {
            let mut msg = String::from_str("Failed to decode b64: ");
            msg.append(reason.as_str());
            Err(ImageGenerationError::ResponseError(msg))
        },
    }
}

impl ImageGenerationResponse {
    /// The first image of the reply, decoded.
    pub fn image(&self) -> (r: Result<Vec<u8>, ImageGenerationError>)
        requires
            self.data@.len() > 0,
        ensures
            r is Ok <==> standard_base64_decoded(self.data@[0].b64_json@) is Some,
            r is Ok ==> standard_base64_decoded(self.data@[0].b64_json@) == Some(r->Ok_0@),
            r is Err ==> r->Err_0 is ResponseError,
    {
        decoded_image(decode_standard_base64(self.data[0].b64_json.as_str()))
    }
}

} // verus!
