use bureaucrat::models::feedback::{
    Feedback, FeedbackComments, FeedbackRatings, FeedbackRatingsModal, FeedbackVisibility,
    InvalidRating, RatingField,
};
use bureaucrat::models::game::GameId;

fn answers(enjoyable: &str, organized: &str, daytime: &str, nighttime: &str) -> FeedbackRatingsModal {
    FeedbackRatingsModal {
        enjoyable: enjoyable.to_owned(),
        organized: organized.to_owned(),
        daytime: daytime.to_owned(),
        nighttime: nighttime.to_owned(),
    }
}

#[test]
fn to_ratings_reads_four_numbers() {
    assert_eq!(
        answers("5", "4", "5", "3").to_ratings(),
        Ok(FeedbackRatings { enjoyable: 5, organized: 4, daytime: 5, nighttime: 3 })
    );
}

#[test]
fn to_ratings_keeps_each_answer_in_its_own_field() {
    assert_eq!(
        answers("1", "2", "3", "4").to_ratings(),
        Ok(FeedbackRatings { enjoyable: 1, organized: 2, daytime: 3, nighttime: 4 })
    );
}

#[test]
fn to_ratings_asks_no_range_of_a_rating() {
    assert_eq!(
        answers("0", "99", "+7", "0005").to_ratings(),
        Ok(FeedbackRatings { enjoyable: 0, organized: 99, daytime: 7, nighttime: 5 })
    );
    let largest = usize::MAX.to_string();
    assert_eq!(
        answers(&largest, "1", "1", "1").to_ratings(),
        Ok(FeedbackRatings { enjoyable: usize::MAX, organized: 1, daytime: 1, nighttime: 1 })
    );
}

#[test]
fn to_ratings_refuses_a_word_in_the_first_field() {
    assert_eq!(
        answers("five", "4", "5", "3").to_ratings(),
        Err(InvalidRating { field: RatingField::Enjoyable })
    );
}

#[test]
fn to_ratings_refuses_each_field_that_is_no_number() {
    assert_eq!(
        answers("5", "", "5", "3").to_ratings(),
        Err(InvalidRating { field: RatingField::Organized })
    );
    assert_eq!(
        answers("5", "4", "-5", "3").to_ratings(),
        Err(InvalidRating { field: RatingField::Daytime })
    );
    assert_eq!(
        answers("5", "4", "5", "3.5").to_ratings(),
        Err(InvalidRating { field: RatingField::Nighttime })
    );
}

#[test]
fn to_ratings_names_the_first_field_that_is_no_number() {
    assert_eq!(
        answers("5", "x", "y", "z").to_ratings(),
        Err(InvalidRating { field: RatingField::Organized })
    );
    assert_eq!(
        answers("", "", "", "").to_ratings(),
        Err(InvalidRating { field: RatingField::Enjoyable })
    );
    assert_eq!(
        answers("1", "2", " 3", "four").to_ratings(),
        Err(InvalidRating { field: RatingField::Daytime })
    );
}

#[test]
fn to_ratings_refuses_a_number_that_is_too_large() {
    assert_eq!(
        answers("5", "4", "5", "999999999999999999999999999999").to_ratings(),
        Err(InvalidRating { field: RatingField::Nighttime })
    );
}

#[test]
fn to_ratings_agrees_with_the_standard_parser_field_by_field() {
    let samples = ["5", "", "+3", "-3", "a", "18446744073709551616", "07", " 1"];
    for first in samples {
        for second in samples {
            let form = answers(first, second, "1", "2");
            let expected = match (first.parse::<usize>(), second.parse::<usize>()) {
                (Ok(enjoyable), Ok(organized)) => {
                    Ok(FeedbackRatings { enjoyable, organized, daytime: 1, nighttime: 2 })
                }
                (Err(_), _) => Err(InvalidRating { field: RatingField::Enjoyable }),
                (Ok(_), Err(_)) => Err(InvalidRating { field: RatingField::Organized }),
            };
            assert_eq!(form.to_ratings(), expected, "{:?} {:?}", first, second);
        }
    }
}

#[test]
fn visibility_labels() {
    assert_eq!(FeedbackVisibility::WithUsername.label(), "public");
    assert_eq!(FeedbackVisibility::Anonymously.label(), "anonymous");
    assert_eq!(FeedbackVisibility::Private.label(), "private");
}

#[test]
fn visibility_to_string_is_the_label() {
    assert_eq!(FeedbackVisibility::WithUsername.to_string(), "public");
    assert_eq!(FeedbackVisibility::Anonymously.to_string(), "anonymous");
    assert_eq!(FeedbackVisibility::Private.to_string(), "private");
}

#[test]
fn visibility_is_anonymous_by_default() {
    assert_eq!(FeedbackVisibility::default(), FeedbackVisibility::Anonymously);
    assert_eq!(FeedbackVisibility::default().label(), "anonymous");
}

#[test]
fn answers_are_cloned_whole() {
    let form = answers("5", "four", "", "+3");
    let copy = form.clone();
    assert_eq!(copy.enjoyable, "5");
    assert_eq!(copy.organized, "four");
    assert_eq!(copy.daytime, "");
    assert_eq!(copy.nighttime, "+3");
}

#[test]
fn comments_are_cloned_whole() {
    let comments = FeedbackComments { advice: Some("Good pacing".to_owned()), other: None };
    let copy = comments.clone();
    assert_eq!(copy.advice.as_deref(), Some("Good pacing"));
    assert_eq!(copy.other, None);
    let comments = FeedbackComments { advice: None, other: Some(String::new()) };
    let copy = comments.clone();
    assert_eq!(copy.advice, None);
    assert_eq!(copy.other.as_deref(), Some(""));
}

#[test]
fn an_entry_is_cloned_whole() {
    let entry = Feedback {
        uuid: 9,
        game_id: GameId { guild: 1, channel: 2 },
        storyteller: 3,
        reporter: 4,
        ratings: FeedbackRatings { enjoyable: 5, organized: 4, daytime: 5, nighttime: 3 },
        comments: FeedbackComments { advice: Some("a".to_owned()), other: Some("b".to_owned()) },
        sharing: FeedbackVisibility::Private,
    };
    let copy = entry.clone();
    assert_eq!(format!("{:?}", copy), format!("{:?}", entry));
    assert_eq!(copy.uuid, 9);
    assert_eq!(copy.game_id, GameId { guild: 1, channel: 2 });
    assert_eq!(copy.comments.other.as_deref(), Some("b"));
}

#[test]
fn game_ids_are_ordered_by_guild_then_channel() {
    let a = GameId { guild: 1, channel: 9 };
    let b = GameId { guild: 2, channel: 0 };
    let c = GameId { guild: 2, channel: 1 };
    assert!(a < b);
    assert!(b < c);
    assert_eq!(a, GameId { guild: 1, channel: 9 });
    assert_ne!(b, c);
}
