use vstd::prelude::*;

verus! {

/// What url::Url::parse makes of a text: its serialized form, or nothing when
/// the text is no absolute URL.
pub uninterp spec fn parsed_url(text: Seq<char>) -> Option<Seq<char>>;

/// Relies on url::Url::parse, and on the conversion of a parsed URL into its
/// serialization.
#[verifier::external_body]
fn parse_url(text: &str) -> (r: Option<String>)
    ensures
        r matches Some(s) ==> parsed_url(text@) == Some(s@),
        r is None ==> parsed_url(text@) is None,
{
    match url::Url::parse(text) {
        Ok(u) => Some(String::from(u)),
        Err(_) => None,
    }
}

/// The video that the diagnostic command plays.
pub open spec fn test_url() -> Seq<char> {
    "https://www.youtube.com/watch?v=dQw4w9WgXcQ"@
}

/// A command of the program.
#[derive(Debug)]
pub enum Command {
    /// Play the video at this address.
    Play { query: String },
    /// Play a known video, downloading it again unless told otherwise.
    Test { no_cache: bool },
}

/// The video to play and whether the cache may be used.
pub struct PlayRequest {
    /// Canonical form of the request URL.
    pub url: String,
    pub use_cache: bool,
}

/// Why a command cannot be carried out.
#[derive(PartialEq, Eq, Structural, Clone, Copy, Debug)]
pub enum CommandError {
    /// The address given is no absolute URL.
    BadUrl,
}

/// The URL text and the cache choice that a command asks for, before parsing.
pub open spec fn request_text(command: Command) -> (Seq<char>, bool) {
    match command {
        Command::Play { query } => (query@, true),
        Command::Test { no_cache } => (test_url(), !no_cache),
    }
}

/// Turns a command into the request it makes: the canonical URL of its
/// address, and whether the cache may be used (always for `play`; for `test`
/// unless it is told not to).
pub fn resolve_command(command: Command) -> (r: Result<PlayRequest, CommandError>)
    ensures
        r is Err <==> parsed_url(request_text(command).0) is None,
        r matches Ok(req) ==> Some(req.url@) == parsed_url(request_text(command).0) && req.use_cache
            == request_text(command).1,
{
    let (text, use_cache) = match command {
        Command::Play { query } => (query, true),
        Command::Test { no_cache } => (String::from_str("https://www.youtube.com/watch?v=dQw4w9WgXcQ"), !no_cache),
    };
    proof {
        reveal_strlit("https://www.youtube.com/watch?v=dQw4w9WgXcQ");
    }
    match parse_url(text.as_str()) {
        Some(url) => Ok(PlayRequest { url, use_cache }),
        None => Err(CommandError::BadUrl),
    }
}

} // verus!
