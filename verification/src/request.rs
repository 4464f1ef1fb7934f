//! What is sent to the moderation endpoint: one frame as a data URL, under a
//! fixed instruction.

use vstd::prelude::*;

verus! {

/// What `base64::Engine::encode` makes of `bytes` with the engine
/// `base64::engine::general_purpose::STANDARD`.
pub uninterp spec fn base64_standard(bytes: Seq<u8>) -> Seq<char>;

/// Calls `base64::Engine::encode` on the engine `STANDARD`. The contract
/// claims that the text depends on `bytes` alone. The length is bounded
/// because the encoder panics where the length of its output does not fit
/// in `usize`.
#[verifier::external_body]
fn encode_base64(bytes: &[u8]) -> (r: String)
    requires
        bytes@.len() <= isize::MAX,
    ensures
        r@ == base64_standard(bytes@),
{
    base64::Engine::encode(&base64::engine::general_purpose::STANDARD, bytes)
}

/// The data URL of a JPEG image.
pub open spec fn data_url_of(image: Seq<u8>) -> Seq<char> {
    "data:image/jpeg;base64,"@ + base64_standard(image)
}

/// The data URL under which a frame is sent.
pub fn image_data_url(image: &[u8]) -> (r: String)
    requires
        image@.len() <= isize::MAX,
    ensures
        r@ == data_url_of(image@),
{
    let encoded: String = encode_base64(image);
    String::from_str("data:image/jpeg;base64,").concat(encoded.as_str())
}

/// The address of the moderation endpoint.
pub fn endpoint() -> (r: &'static str)
    ensures
        r@ == "https://api.x.ai/v1/chat/completions"@,
{
    "https://api.x.ai/v1/chat/completions"
}

/// The model that is asked.
pub fn model() -> (r: &'static str)
    ensures
        r@ == "grok-2-vision-latest"@,
{
    "grok-2-vision-latest"
}

/// The instruction under which every frame is sent: it asks for a JSON
/// object with the fields `description` and `rating` and nothing else.
pub fn system_instruction() -> (r: &'static str)
    ensures
        r@
            == "You are an image moderator. Analyze the image and return a JSON object with exactly two fields: 'description' (a concise analysis) and 'rating' (one of 'G', 'PG', 'PG-13', 'R', or 'Inappropriate'). Your response must be strictly valid JSON without any additional text."@,
{
    "You are an image moderator. Analyze the image and return a JSON object with exactly two fields: 'description' (a concise analysis) and 'rating' (one of 'G', 'PG', 'PG-13', 'R', or 'Inappropriate'). Your response must be strictly valid JSON without any additional text."
}

} // verus!
