use vstd::prelude::*;
use vstd::string::*;
use crate::error::BoothError;
use crate::text::{occurs_at, starts_with, str_eq};

verus! {

/// The fixed image returned when real generation is unavailable or too slow.
pub const PLACEHOLDER_IMAGE: &'static str = "iVBORw0KGgoAAAANSUhEUgAAAAEAAAABCAYAAAAfFcSJAAAADUlEQVR42mNk+M9QDwADhgGAWjR9awAAAABJRU5ErkJggg==";

/// The image generation service's base address.
pub const DEFAULT_BASE_URL: &'static str = "https://api.minimaxi.com";

/// Whether the client must run without network access: when forced, or when
/// the API key is empty or an obvious stand-in.
pub open spec fn mock_required(api_key: Seq<char>, force_mock: Seq<char>) -> bool {
    force_mock == "true"@ || api_key.len() == 0 || api_key == "your-api-key-here"@
        || occurs_at(api_key, 0, "placeholder"@)
}

/// Client of the image generation service. It decides what to send and what
/// a reply means; the transport runs the requests it asks for.
pub struct MiniMaxService {
    pub api_key: String,
    pub base_url: String,
    pub use_mock: bool,
}

/// The two kinds of generation request, in the order they are tried.
#[derive(Clone, Copy, Debug, PartialEq, Eq, Structural)]
pub enum Attempt {
    /// Guided by the user's photo.
    ImageToImage,
    /// From the prompt alone.
    TextToImage,
}

/// What became of a request.
#[derive(Debug)]
pub enum ApiReply {
    /// A success status with an image in the body.
    Image(String),
    /// The request could not be sent, or the status was not a success.
    Failed,
    /// A success status whose body held no readable image.
    Unreadable,
}

/// A photo reference attached to an image-to-image request.
#[derive(Debug)]
pub struct SubjectReference {
    pub kind: String,
    pub image_file: String,
}

/// The body of a generation request.
#[derive(Debug)]
pub struct GenerationRequest {
    pub model: String,
    pub prompt: String,
    pub aspect_ratio: String,
    pub response_format: String,
    pub subject_reference: Option<SubjectReference>,
}

/// The client's next move.
#[derive(Debug)]
pub enum ClientAction {
    /// Send `request` as attempt `attempt` and report the reply.
    Send(Attempt, GenerationRequest),
    /// Generation is over with this result.
    Finish(Result<String, BoothError>),
}

/// The next move, seen through the characters of the strings it holds.
pub enum NextMove {
    Send(Attempt),
    Finish(Result<Seq<char>, BoothError>),
}

pub open spec fn move_of(a: ClientAction) -> NextMove {
    match a {
        ClientAction::Send(at, _) => NextMove::Send(at),
        ClientAction::Finish(Ok(x)) => NextMove::Finish(Ok(x@)),
        ClientAction::Finish(Err(e)) => NextMove::Finish(Err(e)),
    }
}

/// The first move: the placeholder at once in mock mode, else the
/// photo-guided request.
pub open spec fn first_move(use_mock: bool) -> NextMove {
    if use_mock {
        NextMove::Finish(Ok(PLACEHOLDER_IMAGE@))
    } else {
        NextMove::Send(Attempt::ImageToImage)
    }
}

/// The move after `reply` to `attempt`: an image ends generation; a failed
/// photo-guided request falls back once to the prompt-only one, whose failure
/// yields the placeholder; an unreadable body is a generation failure.
pub open spec fn move_after(attempt: Attempt, reply: ApiReply) -> NextMove {
    match reply {
        ApiReply::Image(x) => NextMove::Finish(Ok(x@)),
        ApiReply::Failed => match attempt {
            Attempt::ImageToImage => NextMove::Send(Attempt::TextToImage),
            Attempt::TextToImage => NextMove::Finish(Ok(PLACEHOLDER_IMAGE@)),
        },
        ApiReply::Unreadable => NextMove::Finish(Err(BoothError::GenerationFailed)),
    }
}

/// `req` is the request for `attempt` with this photo and prompt.
pub open spec fn is_request(req: GenerationRequest, attempt: Attempt, photo: Seq<char>, prompt: Seq<char>) -> bool {
    &&& req.model@ == "image-01"@
    &&& req.prompt@ == prompt
    &&& req.aspect_ratio@ == "3:4"@
    &&& req.response_format@ == "base64"@
    &&& match attempt {
        Attempt::ImageToImage => req.subject_reference is Some
            && req.subject_reference->0.kind@ == "character"@
            && req.subject_reference->0.image_file@ == "data:image/jpeg;base64,"@ + photo,
        Attempt::TextToImage => req.subject_reference is None,
    }
}

/// The request that `a` asks for, if any, is the one for its attempt.
pub open spec fn sends_request(a: ClientAction, photo: Seq<char>, prompt: Seq<char>) -> bool {
    match a {
        ClientAction::Send(at, req) => is_request(req, at, photo, prompt),
        ClientAction::Finish(_) => true,
    }
}

impl MiniMaxService {
    /// A client for `api_key`, in mock mode when `force_mock` is `true` or
    /// the key is missing or a stand-in.
    pub fn new(api_key: String, force_mock: &str) -> (r: MiniMaxService)
        ensures
            r.api_key == api_key,
            r.base_url@ == DEFAULT_BASE_URL@,
            r.use_mock == mock_required(api_key@, force_mock@),
    {
        let use_mock = str_eq(force_mock, "true") || api_key.as_str().unicode_len() == 0
            || str_eq(api_key.as_str(), "your-api-key-here")
            || starts_with(api_key.as_str(), "placeholder");
        MiniMaxService { api_key, base_url: String::from_str(DEFAULT_BASE_URL), use_mock }
    }

    /// The fixed placeholder image; no network access.
    pub fn generate_placeholder_image(&self) -> (r: String)
        ensures
            r@ == PLACEHOLDER_IMAGE@,
    {
        String::from_str(PLACEHOLDER_IMAGE)
    }

    /// The address generation requests are posted to.
    pub fn endpoint(&self) -> (r: String)
        ensures
            r@ == self.base_url@ + "/v1/image_generation"@,
    {
        let mut s = self.base_url.clone();
        s.append("/v1/image_generation");
        s
    }

    /// The value of the authorization header.
    pub fn authorization(&self) -> (r: String)
        ensures
            r@ == "Bearer "@ + self.api_key@,
    {
        let mut s = String::from_str("Bearer ");
        s.append(self.api_key.as_str());
        s
    }

    /// The request body for `attempt`.
    pub fn request_for(&self, attempt: Attempt, photo_base64: &str, prompt: &str) -> (r: GenerationRequest)
        ensures
            is_request(r, attempt, photo_base64@, prompt@),
    {
        let subject_reference = match attempt {
            Attempt::ImageToImage => {
                let mut image_file = String::from_str("data:image/jpeg;base64,");
                image_file.append(photo_base64);
                Some(SubjectReference { kind: String::from_str("character"), image_file })
            },
            Attempt::TextToImage => None,
        };
        GenerationRequest {
            model: String::from_str("image-01"),
            prompt: String::from_str(prompt),
            aspect_ratio: String::from_str("3:4"),
            response_format: String::from_str("base64"),
            subject_reference,
        }
    }

    /// The first move of a generation run.
    pub fn start(&self, photo_base64: &str, prompt: &str) -> (r: ClientAction)
        ensures
            move_of(r) == first_move(self.use_mock),
            sends_request(r, photo_base64@, prompt@),
    {
        if self.use_mock {
            ClientAction::Finish(Ok(self.generate_placeholder_image()))
        } else {
            ClientAction::Send(
                Attempt::ImageToImage,
                self.request_for(Attempt::ImageToImage, photo_base64, prompt),
            )
        }
    }

    /// The move after `reply` to `attempt`.
    pub fn on_reply(&self, attempt: Attempt, reply: ApiReply, photo_base64: &str, prompt: &str) -> (r: ClientAction)
        ensures
            move_of(r) == move_after(attempt, reply),
            sends_request(r, photo_base64@, prompt@),
    {
        match reply {
            ApiReply::Image(x) => ClientAction::Finish(Ok(x)),
            ApiReply::Failed => match attempt {
                Attempt::ImageToImage => ClientAction::Send(
                    Attempt::TextToImage,
                    self.request_for(Attempt::TextToImage, photo_base64, prompt),
                ),
                Attempt::TextToImage => ClientAction::Finish(Ok(self.generate_placeholder_image())),
            },
            ApiReply::Unreadable => ClientAction::Finish(Err(BoothError::GenerationFailed)),
        }
    }
}

impl Default for MiniMaxService {
    /// A client in mock mode with no key.
    fn default() -> (r: MiniMaxService)
        ensures
            r.api_key@.len() == 0,
            r.base_url@ == DEFAULT_BASE_URL@,
            r.use_mock,
    {
        MiniMaxService { api_key: String::new(), base_url: String::from_str(DEFAULT_BASE_URL), use_mock: true }
    }
}

} // verus!
