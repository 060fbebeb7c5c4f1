//! Feedback on a Storyteller: the sub-forms a participant fills in, and the
//! entry that is made of them.

use vstd::prelude::*;
use vstd::string::*;
use crate::models::game::GameId;
use crate::text::{clone_optional, optional_text, parse_decimal, read_decimal};

verus! {

/// Who gets to see a feedback entry.
#[derive(Clone, Copy, Debug, PartialEq, Eq, Structural)]
pub enum FeedbackVisibility {
    /// Shared with the Storyteller, under the reporter's name.
    WithUsername,
    /// Shared with the Storyteller, without a name.
    Anonymously,
    /// Shown to the moderators only.
    Private,
}

impl Default for FeedbackVisibility {
    /// Feedback is anonymous unless the reporter says otherwise.
    fn default() -> (mode: Self)
        ensures
            mode == FeedbackVisibility::Anonymously,
    {
        FeedbackVisibility::Anonymously
    }
}

impl FeedbackVisibility {
    /// The word under which this mode is shown to users.
    pub open spec fn label_text(self) -> Seq<char> {
        match self {
            FeedbackVisibility::WithUsername => "public"@,
            FeedbackVisibility::Anonymously => "anonymous"@,
            FeedbackVisibility::Private => "private"@,
        }
    }

    /// The word under which this mode is shown to users: `public`, `anonymous`
    /// or `private`.
    pub fn label(&self) -> (label: &'static str)
        ensures
            label@ == self.label_text(),
    {
        match self {
            FeedbackVisibility::WithUsername => "public",
            FeedbackVisibility::Anonymously => "anonymous",
            FeedbackVisibility::Private => "private",
        }
    }

    /// The label of this mode, as an owned string.
    pub fn to_string(&self) -> (label: String)
        ensures
            label@ == self.label_text(),
    {
        String::from_str(self.label())
    }
}

/// The four ratings of a game, as numbers.
#[derive(Clone, Copy, Debug, PartialEq, Eq, Structural)]
pub struct FeedbackRatings {
    pub enjoyable: usize,
    pub organized: usize,
    pub daytime: usize,
    pub nighttime: usize,
}

/// One of the four questions of the ratings sub-form.
#[derive(Clone, Copy, Debug, PartialEq, Eq, Structural)]
pub enum RatingField {
    Enjoyable,
    Organized,
    Daytime,
    Nighttime,
}

/// The ratings sub-form was refused: `field` is the first of its answers, in
/// the order of the form, that is not a number.
#[derive(Clone, Copy, Debug, PartialEq, Eq, Structural)]
pub struct InvalidRating {
    pub field: RatingField,
}

/// The answers to the ratings sub-form, as the participant typed them.
#[derive(Debug)]
pub struct FeedbackRatingsModal {
    pub enjoyable: String,
    pub organized: String,
    pub daytime: String,
    pub nighttime: String,
}

/// What a `FeedbackRatingsModal` holds, as plain text.
pub struct RatingsText {
    pub enjoyable: Seq<char>,
    pub organized: Seq<char>,
    pub daytime: Seq<char>,
    pub nighttime: Seq<char>,
}

impl View for FeedbackRatingsModal {
    type V = RatingsText;

    open spec fn view(&self) -> RatingsText {
        RatingsText {
            enjoyable: self.enjoyable@,
            organized: self.organized@,
            daytime: self.daytime@,
            nighttime: self.nighttime@,
        }
    }
}

impl Clone for FeedbackRatingsModal {
    fn clone(&self) -> (copy: Self)
        ensures
            copy == *self,
    {
        FeedbackRatingsModal {
            enjoyable: self.enjoyable.clone(),
            organized: self.organized.clone(),
            daytime: self.daytime.clone(),
            nighttime: self.nighttime.clone(),
        }
    }
}

/// The ratings that the typed answers `raw` stand for. Each answer is read on
/// its own, and all four must be numbers: where one is not, the whole form is
/// refused, and the refusal names the first such answer. No range is asked of
/// a rating beyond what a `usize` holds.
pub open spec fn parse_ratings(raw: RatingsText) -> Result<FeedbackRatings, InvalidRating> {
    match read_decimal(raw.enjoyable) {
        None => Err(InvalidRating { field: RatingField::Enjoyable }),
        Some(enjoyable) => match read_decimal(raw.organized) {
            None => Err(InvalidRating { field: RatingField::Organized }),
            Some(organized) => match read_decimal(raw.daytime) {
                None => Err(InvalidRating { field: RatingField::Daytime }),
                Some(daytime) => match read_decimal(raw.nighttime) {
                    None => Err(InvalidRating { field: RatingField::Nighttime }),
                    Some(nighttime) => Ok(
                        FeedbackRatings { enjoyable, organized, daytime, nighttime },
                    ),
                },
            },
        },
    }
}

/// The ratings sub-form is accepted exactly when each of its four answers is a
/// number, and the ratings are then the four numbers. One answer that is not a
/// number is enough for the whole form to be refused.
pub proof fn lemma_ratings_are_all_or_nothing(raw: RatingsText)
    ensures
        parse_ratings(raw) is Ok <==> read_decimal(raw.enjoyable) is Some && read_decimal(
            raw.organized,
        ) is Some && read_decimal(raw.daytime) is Some && read_decimal(raw.nighttime) is Some,
        parse_ratings(raw) matches Ok(ratings) ==> Some(ratings.enjoyable) == read_decimal(
            raw.enjoyable,
        ) && Some(ratings.organized) == read_decimal(raw.organized) && Some(ratings.daytime)
            == read_decimal(raw.daytime) && Some(ratings.nighttime) == read_decimal(
            raw.nighttime,
        ),
{
}

impl FeedbackRatingsModal {
    /// Reads the typed answers as numbers.
    pub fn to_ratings(&self) -> (ratings: Result<FeedbackRatings, InvalidRating>)
        ensures
            ratings == parse_ratings(self@),
    {
        let enjoyable = match parse_decimal(self.enjoyable.as_str()) {
            Some(rating) => rating,
            None => {
                return Err(InvalidRating { field: RatingField::Enjoyable });
            },
        };
        let organized = match parse_decimal(self.organized.as_str()) {
            Some(rating) => rating,
            None => {
                return Err(InvalidRating { field: RatingField::Organized });
            },
        };
        let daytime = match parse_decimal(self.daytime.as_str()) {
            Some(rating) => rating,
            None => {
                return Err(InvalidRating { field: RatingField::Daytime });
            },
        };
        let nighttime = match parse_decimal(self.nighttime.as_str()) {
            Some(rating) => rating,
            None => {
                return Err(InvalidRating { field: RatingField::Nighttime });
            },
        };
        Ok(FeedbackRatings { enjoyable, organized, daytime, nighttime })
    }
}

/// The answers to the comments sub-form. Either may be left out.
#[derive(Debug)]
pub struct FeedbackComments {
    pub advice: Option<String>,
    pub other: Option<String>,
}

/// What a `FeedbackComments` holds, as plain text.
pub struct CommentsText {
    pub advice: Option<Seq<char>>,
    pub other: Option<Seq<char>>,
}

impl View for FeedbackComments {
    type V = CommentsText;

    open spec fn view(&self) -> CommentsText {
        CommentsText { advice: optional_text(self.advice), other: optional_text(self.other) }
    }
}

impl Clone for FeedbackComments {
    fn clone(&self) -> (copy: Self)
        ensures
            copy == *self,
    {
        FeedbackComments {
            advice: clone_optional(&self.advice),
            other: clone_optional(&self.other),
        }
    }
}

/// A feedback entry for a Storyteller: who reports on whom, about which game,
/// with which ratings and comments, and who may see it.
#[derive(Debug)]
pub struct Feedback {
    pub uuid: u64,
    pub game_id: GameId,
    pub storyteller: u64,
    pub reporter: u64,
    pub ratings: FeedbackRatings,
    pub comments: FeedbackComments,
    pub sharing: FeedbackVisibility,
}

/// What a `Feedback` holds, with its texts as plain text.
pub struct FeedbackEntry {
    pub uuid: u64,
    pub game_id: GameId,
    pub storyteller: u64,
    pub reporter: u64,
    pub ratings: FeedbackRatings,
    pub comments: CommentsText,
    pub sharing: FeedbackVisibility,
}

impl View for Feedback {
    type V = FeedbackEntry;

    open spec fn view(&self) -> FeedbackEntry {
        FeedbackEntry {
            uuid: self.uuid,
            game_id: self.game_id,
            storyteller: self.storyteller,
            reporter: self.reporter,
            ratings: self.ratings,
            comments: self.comments@,
            sharing: self.sharing,
        }
    }
}

impl Clone for Feedback {
    fn clone(&self) -> (copy: Self)
        ensures
            copy == *self,
    {
        Feedback {
            uuid: self.uuid,
            game_id: self.game_id,
            storyteller: self.storyteller,
            reporter: self.reporter,
            ratings: self.ratings,
            comments: self.comments.clone(),
            sharing: self.sharing,
        }
    }
}

} // verus!
