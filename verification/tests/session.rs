use bureaucrat::discord::feedback::session::{
    classify, ratings_warning, unrecognized_interaction, Action, Delivery, Event, Fault,
    FeedbackSession, Interaction, Invocation, Rejection, SessionState, IDLE_TIMEOUT_SECS,
};
use bureaucrat::discord::feedback::submit::ButtonStyle;
use bureaucrat::discord::utils::BotProfile;
use bureaucrat::models::feedback::{
    FeedbackComments, FeedbackRatings, FeedbackRatingsModal, FeedbackVisibility,
};
use bureaucrat::models::game::GameId;

const TOKEN: u64 = 1122334455667788;
const START: u64 = 1_700_000_000;

fn invocation() -> Invocation {
    Invocation {
        token: TOKEN,
        reporter: 77,
        storyteller: 11,
        storyteller_name: "U1".to_owned(),
        guild: Some(500),
        channel: Some(600),
        sharing: FeedbackVisibility::default(),
    }
}

fn new_session() -> FeedbackSession {
    FeedbackSession::begin(invocation(), START).unwrap()
}

fn bot() -> BotProfile {
    BotProfile { name: "Bureaucrat".to_owned(), avatar_url: None }
}

fn click(tag: &str) -> Event {
    Event::Interaction(format!("{}_{}", TOKEN, tag))
}

fn answers(enjoyable: &str, organized: &str, daytime: &str, nighttime: &str) -> Event {
    Event::RatingsSubmitted(FeedbackRatingsModal {
        enjoyable: enjoyable.to_owned(),
        organized: organized.to_owned(),
        daytime: daytime.to_owned(),
        nighttime: nighttime.to_owned(),
    })
}

fn comments(advice: Option<&str>, other: Option<&str>) -> Event {
    Event::CommentsSubmitted(FeedbackComments {
        advice: advice.map(str::to_owned),
        other: other.map(str::to_owned),
    })
}

fn filled_session() -> FeedbackSession {
    let mut session = new_session();
    assert_eq!(session.step(click("ratings"), START + 1), Action::OpenRatingsForm);
    assert_eq!(session.step(answers("5", "4", "5", "3"), START + 2), Action::Render);
    assert_eq!(session.step(click("comments"), START + 3), Action::OpenCommentsForm);
    assert_eq!(session.step(comments(Some("Good pacing"), None), START + 4), Action::Render);
    session
}

#[test]
fn a_new_session_shows_its_empty_form() {
    let session = new_session();
    assert_eq!(session.state(), SessionState::Collecting);
    assert!(!session.is_over());
    assert_eq!(session.token(), TOKEN);
    assert_eq!(session.reporter(), 77);
    assert_eq!(session.storyteller(), 11);
    assert_eq!(session.game_id(), GameId { guild: 500, channel: 600 });
    assert_eq!(session.sharing(), FeedbackVisibility::Anonymously);
    assert_eq!(session.ratings(), None);
    assert!(session.comments().is_none());
    assert!(session.entry().is_none());
    assert_eq!(session.created_at(), START);
    assert_eq!(session.idle_deadline(), START + 600);
    assert_eq!(IDLE_TIMEOUT_SECS, 600);
}

#[test]
fn a_command_outside_a_game_is_rejected() {
    let mut outside = invocation();
    outside.guild = None;
    outside.channel = None;
    let rejection = FeedbackSession::begin(outside, START).err();
    assert_eq!(rejection, Some(Rejection::OutsideGame));
    assert_eq!(Rejection::OutsideGame.message(), "This command must be run in a server!");
}

#[test]
fn a_command_without_community_or_without_channel_is_rejected() {
    let mut no_guild = invocation();
    no_guild.guild = None;
    assert_eq!(FeedbackSession::begin(no_guild, START).err(), Some(Rejection::OutsideGame));
    let mut no_channel = invocation();
    no_channel.channel = None;
    assert_eq!(FeedbackSession::begin(no_channel, START).err(), Some(Rejection::OutsideGame));
}

#[test]
fn scenario_fill_both_sub_forms_and_submit() {
    let mut session = new_session();
    assert_eq!(session.step(click("ratings"), START + 10), Action::OpenRatingsForm);
    assert_eq!(session.state(), SessionState::AwaitingRatingsForm);
    assert_eq!(session.step(answers("5", "4", "5", "3"), START + 20), Action::Render);
    assert_eq!(session.state(), SessionState::Collecting);
    assert_eq!(
        session.ratings(),
        Some(FeedbackRatings { enjoyable: 5, organized: 4, daytime: 5, nighttime: 3 })
    );
    assert_eq!(session.step(click("comments"), START + 30), Action::OpenCommentsForm);
    assert_eq!(session.state(), SessionState::AwaitingCommentsForm);
    assert_eq!(session.step(comments(Some("Good pacing"), None), START + 40), Action::Render);
    assert_eq!(session.state(), SessionState::Collecting);
    assert!(session.entry().is_none());

    assert_eq!(session.step(click("submit"), START + 50), Action::ShowConfirmation);
    assert_eq!(session.state(), SessionState::Finalizing(Delivery::Confirmation));
    let entry = session.entry().unwrap();
    assert_eq!(entry.uuid, TOKEN);
    assert_eq!(entry.game_id, GameId { guild: 500, channel: 600 });
    assert_eq!(entry.storyteller, 11);
    assert_eq!(entry.reporter, 77);
    assert_eq!(
        entry.ratings,
        FeedbackRatings { enjoyable: 5, organized: 4, daytime: 5, nighttime: 3 }
    );
    assert_eq!(entry.comments.advice.as_deref(), Some("Good pacing"));
    assert_eq!(entry.comments.other, None);
    assert_eq!(entry.sharing, FeedbackVisibility::Anonymously);
    assert_eq!(entry.sharing.label(), "anonymous");

    assert_eq!(session.step(Event::Delivered, START + 51), Action::NotifyReporter);
    assert_eq!(session.state(), SessionState::Finalizing(Delivery::Notification));
    assert_eq!(session.step(Event::Delivered, START + 52), Action::PersistEntry);
    assert_eq!(session.state(), SessionState::Finalizing(Delivery::Persistence));
    assert_eq!(session.step(Event::Delivered, START + 53), Action::Close);
    assert_eq!(session.state(), SessionState::Finalized);
    assert!(session.is_over());
    assert_eq!(session.entry().unwrap().ratings.nighttime, 3);
}

#[test]
fn scenario_invalid_ratings_then_retry() {
    let mut session = new_session();
    assert_eq!(session.step(click("ratings"), START + 1), Action::OpenRatingsForm);
    assert_eq!(session.step(answers("five", "4", "5", "3"), START + 2), Action::WarnAndRender);
    assert_eq!(session.ratings(), None);
    assert_eq!(session.state(), SessionState::Collecting);
    assert!(!session.is_over());
    assert_eq!(ratings_warning(), "Ratings must be numbers!");
    assert!(session.form(&bot()).controls[2].disabled);

    assert_eq!(session.step(click("ratings"), START + 3), Action::OpenRatingsForm);
    assert_eq!(session.step(answers("5", "4", "5", "3"), START + 4), Action::Render);
    assert_eq!(
        session.ratings(),
        Some(FeedbackRatings { enjoyable: 5, organized: 4, daytime: 5, nighttime: 3 })
    );
}

#[test]
fn invalid_ratings_keep_the_ratings_held_before() {
    let mut session = new_session();
    session.step(click("ratings"), START + 1);
    session.step(answers("1", "2", "3", "4"), START + 2);
    session.step(click("ratings"), START + 3);
    assert_eq!(session.step(answers("5", "4", "5", ""), START + 4), Action::WarnAndRender);
    assert_eq!(
        session.ratings(),
        Some(FeedbackRatings { enjoyable: 1, organized: 2, daytime: 3, nighttime: 4 })
    );
}

#[test]
fn valid_ratings_replace_the_ratings_held_before() {
    let mut session = new_session();
    session.step(click("ratings"), START + 1);
    session.step(answers("1", "2", "3", "4"), START + 2);
    session.step(click("ratings"), START + 3);
    assert_eq!(session.step(answers("0", "99", "7", "8"), START + 4), Action::Render);
    assert_eq!(
        session.ratings(),
        Some(FeedbackRatings { enjoyable: 0, organized: 99, daytime: 7, nighttime: 8 })
    );
}

#[test]
fn scenario_submit_with_only_comments_does_nothing() {
    let mut session = new_session();
    session.step(click("comments"), START + 1);
    session.step(comments(None, Some("fine")), START + 2);
    let deadline = session.idle_deadline();
    assert_eq!(session.step(click("submit"), START + 3), Action::Wait);
    assert_eq!(session.state(), SessionState::Collecting);
    assert!(session.entry().is_none());
    assert_eq!(session.idle_deadline(), deadline);
    assert_eq!(session.comments().unwrap().other.as_deref(), Some("fine"));
    assert_eq!(session.ratings(), None);
}

#[test]
fn submit_with_only_ratings_or_with_nothing_does_nothing() {
    let mut session = new_session();
    assert_eq!(session.step(click("submit"), START + 1), Action::Wait);
    assert_eq!(session.state(), SessionState::Collecting);
    session.step(click("ratings"), START + 2);
    session.step(answers("1", "1", "1", "1"), START + 3);
    assert_eq!(session.step(click("submit"), START + 4), Action::Wait);
    assert_eq!(session.state(), SessionState::Collecting);
    assert!(session.entry().is_none());
}

#[test]
fn comments_are_accepted_even_when_empty() {
    let mut session = new_session();
    session.step(click("comments"), START + 1);
    assert_eq!(session.step(comments(None, None), START + 2), Action::Render);
    let held = session.comments().unwrap();
    assert_eq!(held.advice, None);
    assert_eq!(held.other, None);
    assert!(session.form(&bot()).controls[2].disabled);
}

#[test]
fn the_form_follows_the_sub_forms() {
    let mut session = new_session();
    let form = session.form(&bot());
    assert_eq!(form.embed.author, "Storyteller feedback for U1");
    assert_eq!(
        form.embed.description.as_deref(),
        Some("Your feedback is anonymous.\nClick the buttons below to fill out the feedback form.")
    );
    assert_eq!(form.embed.fields[0].value, ":x:");
    assert_eq!(form.embed.fields[1].value, ":x:");
    assert_eq!(form.controls[0].custom_id, format!("{}_ratings", TOKEN));
    assert_eq!(form.controls[1].custom_id, format!("{}_comments", TOKEN));
    assert_eq!(form.controls[2].custom_id, format!("{}_submit", TOKEN));
    assert!(form.controls[2].disabled);

    session.step(click("ratings"), START + 1);
    session.step(answers("5", "4", "5", "3"), START + 2);
    let form = session.form(&bot());
    assert_eq!(form.embed.fields[0].value, ":white_check_mark:");
    assert_eq!(form.embed.fields[1].value, ":x:");
    assert_eq!(form.controls[0].style, ButtonStyle::Secondary);
    assert_eq!(form.controls[1].style, ButtonStyle::Primary);
    assert!(form.controls[2].disabled);

    session.step(click("comments"), START + 3);
    session.step(comments(Some("x"), None), START + 4);
    let form = session.form(&bot());
    assert_eq!(form.embed.fields[1].value, ":white_check_mark:");
    assert_eq!(form.controls[1].style, ButtonStyle::Secondary);
    assert!(!form.controls[2].disabled);
}

#[test]
fn the_submit_control_is_enabled_exactly_when_submitting_works() {
    for with_ratings in [false, true] {
        for with_comments in [false, true] {
            let mut session = new_session();
            if with_ratings {
                session.step(click("ratings"), START + 1);
                session.step(answers("1", "2", "3", "4"), START + 2);
            }
            if with_comments {
                session.step(click("comments"), START + 3);
                session.step(comments(None, None), START + 4);
            }
            let enabled = !session.form(&bot()).controls[2].disabled;
            let action = session.step(click("submit"), START + 5);
            assert_eq!(enabled, with_ratings && with_comments);
            assert_eq!(action == Action::ShowConfirmation, enabled);
            assert_eq!(session.entry().is_some(), enabled);
        }
    }
}

#[test]
fn a_dismissed_form_leaves_the_sub_form_as_it_was() {
    let mut session = new_session();
    session.step(click("ratings"), START + 1);
    assert_eq!(session.step(Event::FormDismissed, START + 2), Action::Render);
    assert_eq!(session.state(), SessionState::Collecting);
    assert_eq!(session.ratings(), None);

    session.step(click("ratings"), START + 3);
    session.step(answers("5", "4", "5", "3"), START + 4);
    session.step(click("ratings"), START + 5);
    assert_eq!(session.step(Event::FormDismissed, START + 6), Action::Render);
    assert_eq!(
        session.ratings(),
        Some(FeedbackRatings { enjoyable: 5, organized: 4, daytime: 5, nighttime: 3 })
    );

    session.step(click("comments"), START + 7);
    session.step(comments(Some("kept"), None), START + 8);
    session.step(click("comments"), START + 9);
    assert_eq!(session.step(Event::FormDismissed, START + 10), Action::Render);
    assert_eq!(session.comments().unwrap().advice.as_deref(), Some("kept"));
    assert_eq!(session.state(), SessionState::Collecting);
}

#[test]
fn events_of_other_sessions_are_invisible() {
    let mut session = filled_session();
    let deadline = session.idle_deadline();
    for id in [
        "9999_submit",
        "9999_ratings",
        "submit",
        "",
        "_submit",
        "x1122334455667788_submit",
        "112233445566778_submit",
        "11223344556677889_submit",
        "1122334455667788submit",
        "1122334455667788",
    ] {
        assert_eq!(session.step(Event::Interaction(id.to_owned()), START + 5), Action::Wait, "{:?}", id);
        assert_eq!(session.state(), SessionState::Collecting);
        assert!(session.entry().is_none());
        assert_eq!(session.idle_deadline(), deadline);
    }
    assert_eq!(
        session.step(Event::Interaction("9999_submit".to_owned()), START + 100_000),
        Action::Wait
    );
    assert_eq!(session.state(), SessionState::Collecting);
}

#[test]
fn classify_tells_the_meaning_of_a_control() {
    assert_eq!(classify(12, "12_ratings"), Interaction::Ratings);
    assert_eq!(classify(12, "12_comments"), Interaction::Comments);
    assert_eq!(classify(12, "12_submit"), Interaction::Submit);
    assert_eq!(classify(0, "0_submit"), Interaction::Submit);
    assert_eq!(
        classify(u64::MAX, "18446744073709551615_comments"),
        Interaction::Comments
    );
}

#[test]
fn classify_takes_the_whole_token_and_the_underscore() {
    assert_eq!(classify(12, "123_ratings"), Interaction::Foreign);
    assert_eq!(classify(1, "12_ratings"), Interaction::Foreign);
    assert_eq!(classify(123, "12_ratings"), Interaction::Foreign);
    assert_eq!(classify(12, "13_ratings"), Interaction::Foreign);
    assert_eq!(classify(12, "1_ratings"), Interaction::Foreign);
    assert_eq!(classify(12, "12ratings"), Interaction::Foreign);
    assert_eq!(classify(12, "12"), Interaction::Foreign);
    assert_eq!(classify(12, "12-ratings"), Interaction::Foreign);
    assert_eq!(classify(12, "012_ratings"), Interaction::Foreign);
    assert_eq!(classify(12, "+12_ratings"), Interaction::Foreign);
    assert_eq!(classify(12, " 12_ratings"), Interaction::Foreign);
    assert_eq!(classify(12, ""), Interaction::Foreign);
    assert_eq!(classify(12, "ratings"), Interaction::Foreign);
    assert_eq!(classify(12, "_ratings"), Interaction::Foreign);
}

#[test]
fn classify_takes_the_whole_tag() {
    assert_eq!(classify(12, "12_anything_submit"), Interaction::Unrecognized);
    assert_eq!(classify(1, "1_xratings"), Interaction::Unrecognized);
    assert_eq!(classify(12, "12_ratingsx"), Interaction::Unrecognized);
    assert_eq!(classify(12, "12_ratings "), Interaction::Unrecognized);
    assert_eq!(classify(12, "12__ratings"), Interaction::Unrecognized);
    assert_eq!(classify(12, "12_Ratings"), Interaction::Unrecognized);
    assert_eq!(classify(12, "12_cancel"), Interaction::Unrecognized);
    assert_eq!(classify(12, "12_"), Interaction::Unrecognized);
    assert_eq!(classify(12, "12_comment"), Interaction::Unrecognized);
    assert_eq!(classify(12, "12_submit_ratings"), Interaction::Unrecognized);
}

#[test]
fn a_control_of_a_session_whose_token_begins_alike_is_invisible() {
    let mut command = invocation();
    command.token = 1;
    let mut session = FeedbackSession::begin(command, START).unwrap();
    assert_eq!(
        session.step(Event::Interaction("12_ratings".to_owned()), START + 1),
        Action::Wait
    );
    assert_eq!(session.state(), SessionState::Collecting);
    assert_eq!(session.idle_deadline(), START + 600);
    assert_eq!(
        session.step(Event::Interaction("1ratings".to_owned()), START + 2),
        Action::Wait
    );
    assert_eq!(session.state(), SessionState::Collecting);
    assert_eq!(
        session.step(Event::Interaction("1_ratings".to_owned()), START + 3),
        Action::OpenRatingsForm
    );
}

#[test]
fn a_tag_that_only_ends_like_a_known_one_aborts_the_session() {
    let mut command = invocation();
    command.token = 1;
    let mut session = FeedbackSession::begin(command, START).unwrap();
    assert_eq!(
        session.step(Event::Interaction("1_xratings".to_owned()), START + 1),
        Action::Abort(Fault::UnrecognizedInteraction)
    );
    assert_eq!(session.state(), SessionState::Aborted);
    assert_eq!(session.ratings(), None);
    assert!(session.entry().is_none());
    assert_eq!(
        session.step(Event::Interaction("1_ratings".to_owned()), START + 2),
        Action::Close
    );
    assert_eq!(session.state(), SessionState::Aborted);
}

#[test]
fn an_unrecognized_control_aborts_the_session() {
    let mut session = filled_session();
    let action = session.step(click("cancel"), START + 5);
    assert_eq!(action, Action::Abort(Fault::UnrecognizedInteraction));
    assert_eq!(session.state(), SessionState::Aborted);
    assert!(session.is_over());
    assert!(session.entry().is_none());
    assert_eq!(
        unrecognized_interaction("1122334455667788_cancel"),
        "unrecognized interaction 1122334455667788_cancel"
    );
}

#[test]
fn the_end_of_the_wait_expires_the_session() {
    let mut session = filled_session();
    assert_eq!(session.step(Event::StreamEnded, START + 604), Action::Close);
    assert_eq!(session.state(), SessionState::Expired);
    assert!(session.is_over());
    assert!(session.entry().is_none());
}

#[test]
fn an_expired_session_takes_no_further_events() {
    let mut session = filled_session();
    session.step(Event::StreamEnded, START + 604);
    for event in [
        click("submit"),
        click("ratings"),
        click("cancel"),
        Event::Delivered,
        Event::DeliveryFailed,
        Event::FormDismissed,
        Event::StreamEnded,
        answers("1", "2", "3", "4"),
        comments(None, None),
    ] {
        assert_eq!(session.step(event, START + 5), Action::Close);
        assert_eq!(session.state(), SessionState::Expired);
        assert!(session.entry().is_none());
    }
}

#[test]
fn a_control_used_too_late_expires_the_session() {
    let mut session = filled_session();
    let deadline = session.idle_deadline();
    assert_eq!(deadline, START + 4 + 600);
    assert_eq!(session.step(click("submit"), deadline), Action::Close);
    assert_eq!(session.state(), SessionState::Expired);
    assert!(session.entry().is_none());
}

#[test]
fn a_control_used_just_in_time_counts() {
    let mut session = filled_session();
    let deadline = session.idle_deadline();
    assert_eq!(session.step(click("submit"), deadline - 1), Action::ShowConfirmation);
    assert!(session.entry().is_some());
}

#[test]
fn the_deadline_is_renewed_when_a_sub_form_closes() {
    let mut session = new_session();
    assert_eq!(session.idle_deadline(), START + 600);
    session.step(click("ratings"), START + 100);
    assert_eq!(session.idle_deadline(), START + 600);
    session.step(answers("1", "2", "3", "4"), START + 5000);
    assert_eq!(session.idle_deadline(), START + 5600);
    session.step(click("comments"), START + 5001);
    session.step(Event::FormDismissed, START + 7000);
    assert_eq!(session.idle_deadline(), START + 7600);
    session.step(click("ratings"), START + 7001);
    session.step(answers("", "2", "3", "4"), START + 8000);
    assert_eq!(session.idle_deadline(), START + 8600);
    assert_eq!(session.created_at(), START);
}

#[test]
fn the_deadline_stops_at_the_last_moment() {
    let session = FeedbackSession::begin(invocation(), u64::MAX - 10).unwrap();
    assert_eq!(session.idle_deadline(), u64::MAX);
    let session = FeedbackSession::begin(invocation(), u64::MAX - 600).unwrap();
    assert_eq!(session.idle_deadline(), u64::MAX);
    let session = FeedbackSession::begin(invocation(), u64::MAX - 601).unwrap();
    assert_eq!(session.idle_deadline(), u64::MAX - 1);
    let session = FeedbackSession::begin(invocation(), 0).unwrap();
    assert_eq!(session.idle_deadline(), 600);
}

#[test]
fn a_failed_delivery_aborts_the_session() {
    let mut session = new_session();
    assert_eq!(
        session.step(Event::DeliveryFailed, START + 1),
        Action::Abort(Fault::DeliveryFailed)
    );
    assert_eq!(session.state(), SessionState::Aborted);

    let mut session = session_awaiting_ratings();
    assert_eq!(
        session.step(Event::DeliveryFailed, START + 2),
        Action::Abort(Fault::DeliveryFailed)
    );
    assert_eq!(session.state(), SessionState::Aborted);
    assert_eq!(session.step(Event::Delivered, START + 3), Action::Close);
}

fn session_awaiting_ratings() -> FeedbackSession {
    let mut session = new_session();
    session.step(click("ratings"), START + 1);
    session
}

#[test]
fn a_failed_delivery_while_finalizing_aborts_without_retry() {
    for delivered in 0..3 {
        let mut session = filled_session();
        session.step(click("submit"), START + 5);
        for _ in 0..delivered {
            session.step(Event::Delivered, START + 6);
        }
        assert_eq!(
            session.step(Event::DeliveryFailed, START + 7),
            Action::Abort(Fault::DeliveryFailed)
        );
        assert_eq!(session.state(), SessionState::Aborted);
        assert!(session.entry().is_none());
        assert_eq!(session.step(Event::Delivered, START + 8), Action::Close);
        assert_eq!(session.state(), SessionState::Aborted);
    }
}

#[test]
fn a_finalized_session_takes_no_further_events() {
    let mut session = filled_session();
    session.step(click("submit"), START + 5);
    session.step(Event::Delivered, START + 6);
    session.step(Event::Delivered, START + 6);
    session.step(Event::Delivered, START + 6);
    assert_eq!(session.state(), SessionState::Finalized);
    for event in [click("submit"), Event::Delivered, Event::DeliveryFailed, Event::StreamEnded] {
        assert_eq!(session.step(event, START + 7), Action::Close);
        assert_eq!(session.state(), SessionState::Finalized);
        assert_eq!(session.entry().unwrap().uuid, TOKEN);
    }
}

#[test]
fn events_that_a_state_does_not_wait_for_do_nothing() {
    let mut session = new_session();
    for event in [
        Event::Delivered,
        Event::FormDismissed,
        answers("1", "2", "3", "4"),
        comments(Some("x"), None),
    ] {
        assert_eq!(session.step(event, START + 1), Action::Wait);
        assert_eq!(session.state(), SessionState::Collecting);
        assert_eq!(session.ratings(), None);
        assert!(session.comments().is_none());
        assert_eq!(session.idle_deadline(), START + 600);
    }

    let mut session = session_awaiting_ratings();
    for event in [
        click("submit"),
        click("comments"),
        click("cancel"),
        Event::StreamEnded,
        Event::Delivered,
        comments(Some("x"), None),
    ] {
        assert_eq!(session.step(event, START + 2), Action::Wait);
        assert_eq!(session.state(), SessionState::AwaitingRatingsForm);
        assert!(session.comments().is_none());
    }

    let mut session = new_session();
    session.step(click("comments"), START + 1);
    for event in [click("ratings"), Event::StreamEnded, answers("1", "2", "3", "4")] {
        assert_eq!(session.step(event, START + 2), Action::Wait);
        assert_eq!(session.state(), SessionState::AwaitingCommentsForm);
        assert_eq!(session.ratings(), None);
    }

    let mut session = filled_session();
    session.step(click("submit"), START + 5);
    for event in [
        click("submit"),
        click("ratings"),
        Event::StreamEnded,
        Event::FormDismissed,
        answers("9", "9", "9", "9"),
        comments(Some("changed"), None),
    ] {
        assert_eq!(session.step(event, START + 6), Action::Wait);
        assert_eq!(session.state(), SessionState::Finalizing(Delivery::Confirmation));
        let entry = session.entry().unwrap();
        assert_eq!(entry.ratings.enjoyable, 5);
        assert_eq!(entry.comments.advice.as_deref(), Some("Good pacing"));
    }
}

#[test]
fn the_confirmation_and_the_receipt_name_the_storyteller() {
    let session = filled_session();
    let view = session.confirmation(&bot());
    assert_eq!(view.embed.author, "Storyteller feedback for U1");
    assert_eq!(view.embed.description.as_deref(), Some("Feedback submitted; thank you!"));
    assert!(view.controls.is_empty());
    let receipt = session.receipt(&bot(), "Feedback { .. }");
    assert_eq!(receipt.author, "Submitted feedback for U1");
    assert_eq!(receipt.description.as_deref(), Some("```rust\nFeedback { .. }\n```"));
}

#[test]
fn the_entry_says_who_may_see_it() {
    for (sharing, label) in [
        (FeedbackVisibility::WithUsername, "public"),
        (FeedbackVisibility::Anonymously, "anonymous"),
        (FeedbackVisibility::Private, "private"),
    ] {
        let mut command = invocation();
        command.sharing = sharing;
        let mut session = FeedbackSession::begin(command, START).unwrap();
        session.step(click("comments"), START + 1);
        session.step(comments(None, None), START + 2);
        session.step(click("ratings"), START + 3);
        session.step(answers("1", "2", "3", "4"), START + 4);
        session.step(click("submit"), START + 5);
        let entry = session.entry().unwrap();
        assert_eq!(entry.sharing, sharing);
        assert_eq!(entry.sharing.label(), label);
    }
}

#[test]
fn sessions_do_not_share_their_sub_forms() {
    let mut first = new_session();
    let mut other_command = invocation();
    other_command.token = TOKEN + 1;
    let mut second = FeedbackSession::begin(other_command, START).unwrap();
    first.step(click("ratings"), START + 1);
    first.step(answers("5", "4", "5", "3"), START + 2);
    assert_eq!(second.step(click("ratings"), START + 3), Action::Wait);
    assert_eq!(second.state(), SessionState::Collecting);
    assert_eq!(second.ratings(), None);
    assert_eq!(
        second.step(Event::Interaction(format!("{}_ratings", TOKEN + 1)), START + 4),
        Action::OpenRatingsForm
    );
    assert_eq!(first.state(), SessionState::Collecting);
}
