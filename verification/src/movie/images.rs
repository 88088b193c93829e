//! Command to list the images that belong to a movie.

use vstd::prelude::*;

use crate::common::image::Image;
use crate::util::dec_rep;
use crate::util::u64_to_decimal;

verus! {

/// The characters of the endpoint path for the movie `movie_id`:
/// `/movie/{movie_id}/images`.
pub open spec fn spec_path(movie_id: u64) -> Seq<char> {
    "/movie/"@ + dec_rep(movie_id as nat) + "/images"@
}

/// Command to list the images that belong to a movie.
#[derive(Clone, Debug)]
pub struct MovieImages {
    /// ID of the movie.
    pub movie_id: u64,
    /// ISO 639-1 value to display translated data for the fields that
    /// support it.
    pub language: Option<String>,
}

impl MovieImages {
    /// Builds the command for the movie `movie_id`, with no language set.
    pub fn new(movie_id: u64) -> (cmd: Self)
        ensures
            cmd.movie_id == movie_id,
            cmd.language is None,
    {
        Self { movie_id, language: None }
    }

    /// Returns the command with its language replaced by `value`.
    pub fn with_language(self, value: Option<String>) -> (cmd: Self)
        ensures
            cmd.movie_id == self.movie_id,
            cmd.language == value,
    {
        Self { language: value, ..self }
    }

    /// The URL path of the endpoint this command calls.
    pub fn path(&self) -> (p: String)
        ensures
            p@ == spec_path(self.movie_id),
    {
        let mut p = String::from_str("/movie/");
        p.append(u64_to_decimal(self.movie_id).as_str());
        p.append("/images");
        proof {
            assert(p@ =~= spec_path(self.movie_id));
        }
        p
    }

    /// The query parameters of the endpoint: the language, when one is
    /// set, and nothing otherwise.
    pub fn params(&self) -> (q: Vec<(&'static str, String)>)
        ensures
            self.language matches Some(lang) ==> q@.len() == 1 && q@[0].0@ == "language"@
                && q@[0].1@ == lang@,
            self.language is None ==> q@.len() == 0,
    {
        match &self.language {
            Some(language) => {
                let mut q: Vec<(&'static str, String)> = Vec::new();
                q.push(("language", language.clone()));
                q
            },
            None => Vec::new(),
        }
    }
}

impl Default for MovieImages {
    /// The command for the movie with ID zero, with no language set.
    fn default() -> (cmd: Self)
        ensures
            cmd.movie_id == 0,
            cmd.language is None,
    {
        Self { movie_id: 0, language: None }
    }
}

/// The response of the movie-images endpoint.
#[derive(Clone, Debug)]
pub struct MovieImagesResult {
    /// ID of the movie.
    pub id: u64,
    /// Backdrop images of the movie.
    pub backdrops: Vec<Image>,
    /// Poster images of the movie.
    pub posters: Vec<Image>,
    /// Logo images of the movie.
    pub logos: Vec<Image>,
}

} // verus!
