//! The session that collects one feedback entry.
//!
//! A session is a state machine. Its owner feeds it events, one at a time and
//! in the order in which they arrive, and performs the action that each step
//! answers with: open a sub-form, show the form again, deliver the finished
//! entry. The session itself sends and shows nothing.

use vstd::prelude::*;
use vstd::string::*;
use crate::discord::feedback::submit::{
    confirmation_view, confirmation_view_text, control_id, control_id_string, control_prefix,
    control_prefix_string, feedback_view, feedback_view_text, receipt_embed, receipt_embed_text,
    FeedbackView, Tag, ViewText,
};
use crate::discord::utils::{BotProfile, BotText, Embed};
use crate::models::feedback::{
    parse_ratings, CommentsText, Feedback, FeedbackComments, FeedbackEntry, FeedbackRatings,
    FeedbackRatingsModal, FeedbackVisibility, RatingsText,
};
use crate::models::game::GameId;
use crate::text::{decimal, is_digit, lemma_decimal_injective, lemma_decimal_writes, starts_with};

verus! {

/// For how many seconds a session waits for the participant before it expires.
pub const IDLE_TIMEOUT_SECS: u64 = 600;

/// The moment at which a session that was last heard of at `now` expires. The
/// moment is held at the largest one that can be told.
pub open spec fn deadline_after(now: u64) -> u64 {
    if now + IDLE_TIMEOUT_SECS > u64::MAX {
        u64::MAX
    } else {
        (now + IDLE_TIMEOUT_SECS) as u64
    }
}

/// What an interaction with a control means to a session.
#[derive(Clone, Copy, Debug, PartialEq, Eq, Structural)]
pub enum Interaction {
    /// The control belongs to another session.
    Foreign,
    /// The participant wants to fill in the ratings.
    Ratings,
    /// The participant wants to fill in the comments.
    Comments,
    /// The participant wants to submit.
    Submit,
    /// The control names this session and nothing that the session knows.
    Unrecognized,
}

/// Whether the session with token `token` takes the interaction with the
/// control `custom_id` for its own: the identifier begins with the token in
/// decimal and an underscore.
pub open spec fn accepts(token: u64, custom_id: Seq<char>) -> bool {
    control_prefix(token).is_prefix_of(custom_id)
}

/// The tag of the control `custom_id` in the session with token `token`: all
/// that follows the token and the underscore.
pub open spec fn tag_text(token: u64, custom_id: Seq<char>) -> Seq<char>
    recommends
        accepts(token, custom_id),
{
    custom_id.subrange(control_prefix(token).len() as int, custom_id.len() as int)
}

/// What the interaction with the control `custom_id` means to the session with
/// token `token`. An identifier that the session does not take for its own is
/// foreign. One that it does is told by its tag, which is one of the three
/// words, whole, or is not recognized.
pub open spec fn classify_text(token: u64, custom_id: Seq<char>) -> Interaction {
    if !accepts(token, custom_id) {
        Interaction::Foreign
    } else if tag_text(token, custom_id) == Tag::Ratings.text() {
        Interaction::Ratings
    } else if tag_text(token, custom_id) == Tag::Comments.text() {
        Interaction::Comments
    } else if tag_text(token, custom_id) == Tag::Submit.text() {
        Interaction::Submit
    } else {
        Interaction::Unrecognized
    }
}

/// Whether `custom_id` is the identifier of the control with tag `tag` in the
/// session with token `token`.
fn is_control(token: u64, custom_id: &str, tag: Tag) -> (same: bool)
    requires
        accepts(token, custom_id@),
    ensures
        same == (tag_text(token, custom_id@) == tag.text()),
{
    let id = String::from_str(custom_id);
    let control = control_id_string(token, tag);
    proof {
        let prefix = control_prefix(token);
        assert(custom_id@ =~= prefix + tag_text(token, custom_id@));
        assert(control@.subrange(prefix.len() as int, control@.len() as int) =~= tag.text());
    }
    id == control
}

/// Tells what the interaction with the control `custom_id` means to the
/// session with token `token`.
pub fn classify(token: u64, custom_id: &str) -> (meaning: Interaction)
    ensures
        meaning == classify_text(token, custom_id@),
{
    let prefix = control_prefix_string(token);
    if !starts_with(custom_id, prefix.as_str()) {
        Interaction::Foreign
    } else if is_control(token, custom_id, Tag::Ratings) {
        Interaction::Ratings
    } else if is_control(token, custom_id, Tag::Comments) {
        Interaction::Comments
    } else if is_control(token, custom_id, Tag::Submit) {
        Interaction::Submit
    } else {
        Interaction::Unrecognized
    }
}

/// What is being delivered while a session finalizes. The three deliveries
/// are made in this order.
#[derive(Clone, Copy, Debug, PartialEq, Eq, Structural)]
pub enum Delivery {
    /// The form is replaced by a word of thanks.
    Confirmation,
    /// The reporter is sent the entry for their own reference.
    Notification,
    /// The entry is handed to the store.
    Persistence,
}

/// Where a session stands.
#[derive(Clone, Copy, Debug, PartialEq, Eq, Structural)]
pub enum SessionState {
    /// The form is shown, and the session waits for the participant.
    Collecting,
    /// The ratings sub-form is open.
    AwaitingRatingsForm,
    /// The comments sub-form is open.
    AwaitingCommentsForm,
    /// The entry is made, and the delivery named is under way.
    Finalizing(Delivery),
    /// The entry is delivered. The session is over.
    Finalized,
    /// The participant was not heard of in time. The session is over.
    Expired,
    /// Something went wrong that the session cannot mend. The session is over.
    Aborted,
}

impl SessionState {
    /// Whether a session in this state is over.
    pub open spec fn is_terminal(self) -> bool {
        self is Finalized || self is Expired || self is Aborted
    }

    /// Whether a session in this state has made its entry.
    pub open spec fn has_entry(self) -> bool {
        self is Finalizing || self is Finalized
    }
}

/// Why a session was aborted.
#[derive(Clone, Copy, Debug, PartialEq, Eq, Structural)]
pub enum Fault {
    /// A control named the session and nothing that the session knows.
    UnrecognizedInteraction,
    /// Something could not be shown or sent.
    DeliveryFailed,
}

/// What the owner of a session does after a step.
#[derive(Clone, Copy, Debug, PartialEq, Eq, Structural)]
pub enum Action {
    /// Nothing: wait for the next event.
    Wait,
    /// Open the ratings sub-form, filled in with the ratings held so far.
    OpenRatingsForm,
    /// Open the comments sub-form, filled in with the comments held so far.
    OpenCommentsForm,
    /// Show the form again.
    Render,
    /// Tell the participant, and nobody else, that ratings must be numbers;
    /// then show the form again.
    WarnAndRender,
    /// Replace the form by the confirmation.
    ShowConfirmation,
    /// Send the reporter the entry.
    NotifyReporter,
    /// Hand the entry to the store.
    PersistEntry,
    /// Nothing: the session is over, and nothing is said about it.
    Close,
    /// Report the fault to whoever started the session. The session is over.
    Abort(Fault),
}

/// What happens to a session.
#[derive(Debug)]
pub enum Event {
    /// The participant used the control with this identifier.
    Interaction(String),
    /// The participant was not heard of in time.
    StreamEnded,
    /// The participant sent the ratings sub-form with these answers.
    RatingsSubmitted(FeedbackRatingsModal),
    /// The participant sent the comments sub-form with these answers.
    CommentsSubmitted(FeedbackComments),
    /// The participant put the open sub-form away without sending it.
    FormDismissed,
    /// What the last action asked for was shown or sent.
    Delivered,
    /// What the last action asked for could not be shown or sent.
    DeliveryFailed,
}

/// What an `Event` holds, as plain text.
pub enum EventText {
    Interaction(Seq<char>),
    StreamEnded,
    RatingsSubmitted(RatingsText),
    CommentsSubmitted(CommentsText),
    FormDismissed,
    Delivered,
    DeliveryFailed,
}

impl View for Event {
    type V = EventText;

    open spec fn view(&self) -> EventText {
        match self {
            Event::Interaction(custom_id) => EventText::Interaction(custom_id@),
            Event::StreamEnded => EventText::StreamEnded,
            Event::RatingsSubmitted(raw) => EventText::RatingsSubmitted(raw@),
            Event::CommentsSubmitted(comments) => EventText::CommentsSubmitted(comments@),
            Event::FormDismissed => EventText::FormDismissed,
            Event::Delivered => EventText::Delivered,
            Event::DeliveryFailed => EventText::DeliveryFailed,
        }
    }
}

/// What a session is: who reports on whom, about which game and for whose
/// eyes; the sub-forms filled in so far; where the session stands; when it was
/// begun, and when it expires if the participant is not heard of.
pub struct SessionModel {
    pub token: u64,
    pub storyteller: u64,
    pub storyteller_name: Seq<char>,
    pub reporter: u64,
    pub game_id: GameId,
    pub sharing: FeedbackVisibility,
    pub ratings: Option<FeedbackRatings>,
    pub comments: Option<CommentsText>,
    pub state: SessionState,
    pub created_at: u64,
    pub idle_deadline: u64,
}

impl SessionModel {
    /// Whether both sub-forms are filled in.
    pub open spec fn complete(self) -> bool {
        self.ratings is Some && self.comments is Some
    }

    /// A session makes its entry of both sub-forms: it has none while one of
    /// them is missing.
    pub open spec fn wf(self) -> bool {
        self.state.has_entry() ==> self.complete()
    }

    /// The entry that the session has made, if it has made one.
    pub open spec fn entry(self) -> Option<FeedbackEntry> {
        if self.state.has_entry() && self.complete() {
            Some(
                FeedbackEntry {
                    uuid: self.token,
                    game_id: self.game_id,
                    storyteller: self.storyteller,
                    reporter: self.reporter,
                    ratings: self.ratings->0,
                    comments: self.comments->0,
                    sharing: self.sharing,
                },
            )
        } else {
            None
        }
    }

    /// The form of the session, as the participant sees it.
    pub open spec fn form(self, bot: BotText) -> ViewText {
        feedback_view_text(
            bot,
            self.token,
            self.storyteller_name,
            self.sharing,
            self.comments is Some,
            self.ratings is Some,
        )
    }

    /// The session in another state.
    pub open spec fn moved_to(self, state: SessionState) -> SessionModel {
        SessionModel { state, ..self }
    }

    /// The session back at its form at the moment `now`: it waits for the
    /// participant again, and for a full timeout.
    pub open spec fn resumed(self, now: u64) -> SessionModel {
        SessionModel {
            state: SessionState::Collecting,
            idle_deadline: deadline_after(now),
            ..self
        }
    }
}

/// What the participant's use of the control `custom_id` at the moment `now`
/// does to a session that shows its form.
///
/// A control of another session does nothing. A control of this session that
/// is used when the session should have expired makes it expire. Otherwise the
/// control opens its sub-form, or submits, which starts the deliveries if both
/// sub-forms are filled in and does nothing if one is missing. A control that
/// names the session and nothing that the session knows aborts it.
pub open spec fn on_interaction(s: SessionModel, custom_id: Seq<char>, now: u64) -> (
    SessionModel,
    Action,
) {
    match classify_text(s.token, custom_id) {
        Interaction::Foreign => (s, Action::Wait),
        meaning => if now >= s.idle_deadline {
            (s.moved_to(SessionState::Expired), Action::Close)
        } else {
            match meaning {
                Interaction::Ratings => (
                    s.moved_to(SessionState::AwaitingRatingsForm),
                    Action::OpenRatingsForm,
                ),
                Interaction::Comments => (
                    s.moved_to(SessionState::AwaitingCommentsForm),
                    Action::OpenCommentsForm,
                ),
                Interaction::Submit => if s.complete() {
                    (
                        s.moved_to(SessionState::Finalizing(Delivery::Confirmation)),
                        Action::ShowConfirmation,
                    )
                } else {
                    (s, Action::Wait)
                },
                _ => (
                    s.moved_to(SessionState::Aborted),
                    Action::Abort(Fault::UnrecognizedInteraction),
                ),
            }
        },
    }
}

/// What a delivery that went well does to a session that finalizes: the next
/// delivery starts, and after the last one the session is finalized.
pub open spec fn on_delivered(s: SessionModel, delivery: Delivery) -> (SessionModel, Action) {
    match delivery {
        Delivery::Confirmation => (
            s.moved_to(SessionState::Finalizing(Delivery::Notification)),
            Action::NotifyReporter,
        ),
        Delivery::Notification => (
            s.moved_to(SessionState::Finalizing(Delivery::Persistence)),
            Action::PersistEntry,
        ),
        Delivery::Persistence => (s.moved_to(SessionState::Finalized), Action::Close),
    }
}

/// What the event `e` at the moment `now` does to the session `s`: the session
/// afterwards, and what its owner is to do.
///
/// A session that is over stays as it is. A failed delivery aborts a session
/// that is not over. Every other event counts in the one state that waits for
/// it, and does nothing in the others:
/// - while the form is shown, the use of a control, and the end of the wait,
///   which makes the session expire;
/// - while a sub-form is open, its answers or its dismissal; both bring the
///   session back to its form. Answers are kept if they are valid: comments
///   always are, ratings if all four are numbers. Ratings that are not leave
///   the ratings held so far as they are, and the participant is warned;
/// - while the session finalizes, a delivery that went well.
pub open spec fn next(s: SessionModel, e: EventText, now: u64) -> (SessionModel, Action) {
    if s.state.is_terminal() {
        (s, Action::Close)
    } else {
        match e {
            EventText::DeliveryFailed => (
                s.moved_to(SessionState::Aborted),
                Action::Abort(Fault::DeliveryFailed),
            ),
            EventText::Interaction(custom_id) => if s.state is Collecting {
                on_interaction(s, custom_id, now)
            } else {
                (s, Action::Wait)
            },
            EventText::StreamEnded => if s.state is Collecting {
                (s.moved_to(SessionState::Expired), Action::Close)
            } else {
                (s, Action::Wait)
            },
            EventText::RatingsSubmitted(raw) => if s.state is AwaitingRatingsForm {
                match parse_ratings(raw) {
                    Ok(ratings) => (
                        SessionModel { ratings: Some(ratings), ..s.resumed(now) },
                        Action::Render,
                    ),
                    Err(_) => (s.resumed(now), Action::WarnAndRender),
                }
            } else {
                (s, Action::Wait)
            },
            EventText::CommentsSubmitted(comments) => if s.state is AwaitingCommentsForm {
                (SessionModel { comments: Some(comments), ..s.resumed(now) }, Action::Render)
            } else {
                (s, Action::Wait)
            },
            EventText::FormDismissed => if s.state is AwaitingRatingsForm
                || s.state is AwaitingCommentsForm {
                (s.resumed(now), Action::Render)
            } else {
                (s, Action::Wait)
            },
            EventText::Delivered => match s.state {
                SessionState::Finalizing(delivery) => on_delivered(s, delivery),
                _ => (s, Action::Wait),
            },
        }
    }
}

/// The words that warn the participant of ratings that are not numbers.
pub fn ratings_warning() -> (text: &'static str)
    ensures
        text@ == "Ratings must be numbers!"@,
{
    "Ratings must be numbers!"
}

/// The words that report the use of the control `custom_id`, which names a
/// session and nothing that the session knows.
pub fn unrecognized_interaction(custom_id: &str) -> (text: String)
    ensures
        text@ == "unrecognized interaction "@ + custom_id@,
{
    let mut text = String::from_str("unrecognized interaction ");
    text.append(custom_id);
    text
}

/// Why no session was begun.
#[derive(Clone, Copy, Debug, PartialEq, Eq, Structural)]
pub enum Rejection {
    /// The command was not given in a game: it came without a community, or
    /// without a channel.
    OutsideGame,
}

impl Rejection {
    /// The words that tell the participant of the rejection.
    pub fn message(&self) -> (text: &'static str)
        ensures
            text@ == "This command must be run in a server!"@,
    {
        "This command must be run in a server!"
    }
}

/// A command to submit feedback, as it arrives: who gives it, on whom, for
/// whose eyes, and where. The token is the number that tells this command from
/// every other.
#[derive(Debug)]
pub struct Invocation {
    pub token: u64,
    pub reporter: u64,
    pub storyteller: u64,
    pub storyteller_name: String,
    pub guild: Option<u64>,
    pub channel: Option<u64>,
    pub sharing: FeedbackVisibility,
}

/// What an `Invocation` holds, as plain text.
pub struct InvocationText {
    pub token: u64,
    pub reporter: u64,
    pub storyteller: u64,
    pub storyteller_name: Seq<char>,
    pub guild: Option<u64>,
    pub channel: Option<u64>,
    pub sharing: FeedbackVisibility,
}

impl View for Invocation {
    type V = InvocationText;

    open spec fn view(&self) -> InvocationText {
        InvocationText {
            token: self.token,
            reporter: self.reporter,
            storyteller: self.storyteller,
            storyteller_name: self.storyteller_name@,
            guild: self.guild,
            channel: self.channel,
            sharing: self.sharing,
        }
    }
}

/// What the command `invocation`, given at the moment `now`, begins: a session
/// that shows its empty form, if the command was given in a game, and nothing
/// otherwise.
pub open spec fn begun(invocation: InvocationText, now: u64) -> Result<SessionModel, Rejection> {
    match (invocation.guild, invocation.channel) {
        (Some(guild), Some(channel)) => Ok(
            SessionModel {
                token: invocation.token,
                storyteller: invocation.storyteller,
                storyteller_name: invocation.storyteller_name,
                reporter: invocation.reporter,
                game_id: GameId { guild, channel },
                sharing: invocation.sharing,
                ratings: None,
                comments: None,
                state: SessionState::Collecting,
                created_at: now,
                idle_deadline: deadline_after(now),
            },
        ),
        _ => Err(Rejection::OutsideGame),
    }
}

/// The session that collects one feedback entry.
#[derive(Debug)]
pub struct FeedbackSession {
    token: u64,
    storyteller: u64,
    storyteller_name: String,
    reporter: u64,
    game_id: GameId,
    sharing: FeedbackVisibility,
    ratings: Option<FeedbackRatings>,
    comments: Option<FeedbackComments>,
    state: SessionState,
    created_at: u64,
    idle_deadline: u64,
}

/// The text of comments that may be missing.
pub open spec fn optional_comments(comments: Option<FeedbackComments>) -> Option<CommentsText> {
    match comments {
        Some(comments) => Some(comments@),
        None => None,
    }
}

/// What an entry that may be missing holds.
pub open spec fn optional_entry(entry: Option<Feedback>) -> Option<FeedbackEntry> {
    match entry {
        Some(entry) => Some(entry@),
        None => None,
    }
}

/// What the attempt to begin a session gave.
pub open spec fn begin_result(result: Result<FeedbackSession, Rejection>) -> Result<
    SessionModel,
    Rejection,
> {
    match result {
        Ok(session) => Ok(session@),
        Err(rejection) => Err(rejection),
    }
}

impl View for FeedbackSession {
    type V = SessionModel;

    closed spec fn view(&self) -> SessionModel {
        SessionModel {
            token: self.token,
            storyteller: self.storyteller,
            storyteller_name: self.storyteller_name@,
            reporter: self.reporter,
            game_id: self.game_id,
            sharing: self.sharing,
            ratings: self.ratings,
            comments: optional_comments(self.comments),
            state: self.state,
            created_at: self.created_at,
            idle_deadline: self.idle_deadline,
        }
    }
}

impl FeedbackSession {
    /// Whether the session is as every session is that `begin` made and `step`
    /// moved.
    pub open spec fn wf(&self) -> bool {
        self@.wf()
    }

    /// Begins a session for the command `invocation`, given at the moment
    /// `now`, or rejects the command if it was not given in a game.
    pub fn begin(invocation: Invocation, now: u64) -> (result: Result<FeedbackSession, Rejection>)
        ensures
            begin_result(result) == begun(invocation@, now),
            result matches Ok(session) ==> session.wf(),
    {
        let guild = match invocation.guild {
            Some(guild) => guild,
            None => {
                return Err(Rejection::OutsideGame);
            },
        };
        let channel = match invocation.channel {
            Some(channel) => channel,
            None => {
                return Err(Rejection::OutsideGame);
            },
        };
        Ok(
            FeedbackSession {
                token: invocation.token,
                storyteller: invocation.storyteller,
                storyteller_name: invocation.storyteller_name,
                reporter: invocation.reporter,
                game_id: GameId { guild, channel },
                sharing: invocation.sharing,
                ratings: None,
                comments: None,
                state: SessionState::Collecting,
                created_at: now,
                idle_deadline: now.saturating_add(IDLE_TIMEOUT_SECS),
            },
        )
    }

    /// Brings the session back to its form at the moment `now`.
    fn resume(&mut self, now: u64)
        ensures
            final(self)@ == old(self)@.resumed(now),
    {
        self.state = SessionState::Collecting;
        self.idle_deadline = now.saturating_add(IDLE_TIMEOUT_SECS);
    }

    /// Takes the event `event`, which arrives at the moment `now`, and says
    /// what is to be done about it.
    pub fn step(&mut self, event: Event, now: u64) -> (action: Action)
        ensures
            (final(self)@, action) == next(old(self)@, event@, now),
            old(self).wf() ==> final(self).wf(),
    {
        if self.is_over() {
            return Action::Close;
        }
        match event {
            Event::DeliveryFailed => {
                self.state = SessionState::Aborted;
                Action::Abort(Fault::DeliveryFailed)
            },
            Event::Interaction(custom_id) => match self.state {
                SessionState::Collecting => self.interact(custom_id.as_str(), now),
                _ => Action::Wait,
            },
            Event::StreamEnded => match self.state {
                SessionState::Collecting => {
                    self.state = SessionState::Expired;
                    Action::Close
                },
                _ => Action::Wait,
            },
            Event::RatingsSubmitted(raw) => match self.state {
                SessionState::AwaitingRatingsForm => {
                    self.resume(now);
                    match raw.to_ratings() {
                        Ok(ratings) => {
                            self.ratings = Some(ratings);
                            Action::Render
                        },
                        Err(_) => Action::WarnAndRender,
                    }
                },
                _ => Action::Wait,
            },
            Event::CommentsSubmitted(comments) => match self.state {
                SessionState::AwaitingCommentsForm => {
                    self.resume(now);
                    self.comments = Some(comments);
                    Action::Render
                },
                _ => Action::Wait,
            },
            Event::FormDismissed => match self.state {
                SessionState::AwaitingRatingsForm | SessionState::AwaitingCommentsForm => {
                    self.resume(now);
                    Action::Render
                },
                _ => Action::Wait,
            },
            Event::Delivered => match self.state {
                SessionState::Finalizing(Delivery::Confirmation) => {
                    self.state = SessionState::Finalizing(Delivery::Notification);
                    Action::NotifyReporter
                },
                SessionState::Finalizing(Delivery::Notification) => {
                    self.state = SessionState::Finalizing(Delivery::Persistence);
                    Action::PersistEntry
                },
                SessionState::Finalizing(Delivery::Persistence) => {
                    self.state = SessionState::Finalized;
                    Action::Close
                },
                _ => Action::Wait,
            },
        }
    }

    /// Takes the use of the control `custom_id` at the moment `now`, while the
    /// form is shown.
    fn interact(&mut self, custom_id: &str, now: u64) -> (action: Action)
        requires
            old(self)@.state is Collecting,
        ensures
            (final(self)@, action) == on_interaction(old(self)@, custom_id@, now),
    {
        let meaning = classify(self.token, custom_id);
        match meaning {
            Interaction::Foreign => {
                return Action::Wait;
            },
            _ => {},
        }
        if now >= self.idle_deadline {
            self.state = SessionState::Expired;
            return Action::Close;
        }
        match meaning {
            Interaction::Ratings => {
                self.state = SessionState::AwaitingRatingsForm;
                Action::OpenRatingsForm
            },
            Interaction::Comments => {
                self.state = SessionState::AwaitingCommentsForm;
                Action::OpenCommentsForm
            },
            Interaction::Submit => {
                if self.ratings.is_some() && self.comments.is_some() {
                    self.state = SessionState::Finalizing(Delivery::Confirmation);
                    Action::ShowConfirmation
                } else {
                    Action::Wait
                }
            },
            _ => {
                self.state = SessionState::Aborted;
                Action::Abort(Fault::UnrecognizedInteraction)
            },
        }
    }

    /// The entry that the session has made. There is one from the moment at
    /// which the participant submits both sub-forms, and none before, nor in a
    /// session that expired or was aborted.
    pub fn entry(&self) -> (entry: Option<Feedback>)
        ensures
            optional_entry(entry) == self@.entry(),
    {
        match self.state {
            SessionState::Finalizing(_) | SessionState::Finalized => {},
            _ => {
                return None;
            },
        }
        let ratings = match self.ratings {
            Some(ratings) => ratings,
            None => {
                return None;
            },
        };
        let comments = match &self.comments {
            Some(comments) => comments.clone(),
            None => {
                return None;
            },
        };
        Some(
            Feedback {
                uuid: self.token,
                game_id: self.game_id,
                storyteller: self.storyteller,
                reporter: self.reporter,
                ratings,
                comments,
                sharing: self.sharing,
            },
        )
    }

    /// The form of the session, as the participant sees it.
    pub fn form(&self, bot: &BotProfile) -> (view: FeedbackView)
        ensures
            view@ == self@.form(bot@),
    {
        feedback_view(
            bot,
            self.token,
            self.storyteller_name.as_str(),
            self.sharing,
            self.comments.is_some(),
            self.ratings.is_some(),
        )
    }

    /// What replaces the form once the feedback is submitted.
    pub fn confirmation(&self, bot: &BotProfile) -> (view: FeedbackView)
        ensures
            view@ == confirmation_view_text(bot@, self@.storyteller_name),
    {
        confirmation_view(bot, self.storyteller_name.as_str())
    }

    /// The receipt that is sent to the reporter. `entry` is the entry as the
    /// caller renders it.
    pub fn receipt(&self, bot: &BotProfile, entry: &str) -> (embed: Embed)
        ensures
            embed@ == receipt_embed_text(bot@, self@.storyteller_name, entry@),
    {
        receipt_embed(bot, self.storyteller_name.as_str(), entry)
    }

    /// Whether the session is over.
    pub fn is_over(&self) -> (over: bool)
        ensures
            over == self@.state.is_terminal(),
    {
        match self.state {
            SessionState::Finalized | SessionState::Expired | SessionState::Aborted => true,
            _ => false,
        }
    }

    /// Where the session stands.
    pub fn state(&self) -> (state: SessionState)
        ensures
            state == self@.state,
    {
        self.state
    }

    /// The number that tells this session from every other.
    pub fn token(&self) -> (token: u64)
        ensures
            token == self@.token,
    {
        self.token
    }

    /// The Storyteller on whom the feedback is.
    pub fn storyteller(&self) -> (storyteller: u64)
        ensures
            storyteller == self@.storyteller,
    {
        self.storyteller
    }

    /// The participant who gives the feedback.
    pub fn reporter(&self) -> (reporter: u64)
        ensures
            reporter == self@.reporter,
    {
        self.reporter
    }

    /// The game that the feedback is about.
    pub fn game_id(&self) -> (game_id: GameId)
        ensures
            game_id == self@.game_id,
    {
        self.game_id
    }

    /// Who gets to see the feedback.
    pub fn sharing(&self) -> (sharing: FeedbackVisibility)
        ensures
            sharing == self@.sharing,
    {
        self.sharing
    }

    /// The ratings held so far.
    pub fn ratings(&self) -> (ratings: Option<FeedbackRatings>)
        ensures
            ratings == self@.ratings,
    {
        self.ratings
    }

    /// The comments held so far.
    pub fn comments(&self) -> (comments: Option<FeedbackComments>)
        ensures
            optional_comments(comments) == self@.comments,
    {
        match &self.comments {
            Some(comments) => Some(comments.clone()),
            None => None,
        }
    }

    /// The moment at which the session was begun.
    pub fn created_at(&self) -> (moment: u64)
        ensures
            moment == self@.created_at,
    {
        self.created_at
    }

    /// The moment at which the session expires if the participant is not
    /// heard of before.
    pub fn idle_deadline(&self) -> (moment: u64)
        ensures
            moment == self@.idle_deadline,
    {
        self.idle_deadline
    }
}

/// A control of a session reaches that session, and means there what its tag
/// says.
pub proof fn lemma_control_reaches_its_session(token: u64, tag: Tag)
    ensures
        accepts(token, control_id(token, tag)),
        tag_text(token, control_id(token, tag)) == tag.text(),
        classify_text(token, control_id(token, tag)) == match tag {
            Tag::Ratings => Interaction::Ratings,
            Tag::Comments => Interaction::Comments,
            Tag::Submit => Interaction::Submit,
        },
{
    reveal_strlit("ratings");
    reveal_strlit("comments");
    reveal_strlit("submit");
    let prefix = control_prefix(token);
    let id = control_id(token, tag);
    assert(id.subrange(0, prefix.len() as int) =~= prefix);
    assert(tag_text(token, id) =~= tag.text());
    assert(Tag::Ratings.text().len() == 7);
    assert(Tag::Comments.text().len() == 8);
    assert(Tag::Submit.text().len() == 6);
    assert(Tag::Ratings.text()[0] == 'r');
    assert(Tag::Submit.text()[0] == 's');
}

/// No session takes a control of another session for its own: to every
/// session but the one it belongs to, a control is foreign.
pub proof fn lemma_controls_of_others_are_foreign(token: u64, other: u64, tag: Tag)
    requires
        token != other,
    ensures
        !accepts(token, control_id(other, tag)),
        classify_text(token, control_id(other, tag)) == Interaction::Foreign,
{
    let mine = decimal(token as nat);
    let theirs = decimal(other as nat);
    let id = control_id(other, tag);
    lemma_decimal_writes(token as nat);
    lemma_decimal_writes(other as nat);
    if accepts(token, id) {
        let taken = id.subrange(0, control_prefix(token).len() as int);
        assert(taken == control_prefix(token));
        if mine.len() < theirs.len() {
            assert(taken[mine.len() as int] == '_');
            assert(id[mine.len() as int] == theirs[mine.len() as int]);
            assert(is_digit(theirs[mine.len() as int]));
        } else if mine.len() > theirs.len() {
            assert(taken[theirs.len() as int] == mine[theirs.len() as int]);
            assert(id[theirs.len() as int] == '_');
            assert(is_digit(mine[theirs.len() as int]));
        } else {
            assert forall|i: int| 0 <= i < mine.len() implies mine[i] == theirs[i] by {
                assert(taken[i] == mine[i]);
                assert(id[i] == theirs[i]);
            }
            assert(mine =~= theirs);
            lemma_decimal_injective(token as nat, other as nat);
        }
    }
}

/// A control of another session leaves a session exactly as it is, and asks
/// nothing of its owner: it opens no sub-form, shows nothing again, makes no
/// entry, aborts nothing, and does not put off the moment at which the
/// session expires.
pub proof fn lemma_controls_of_others_are_invisible(
    s: SessionModel,
    other: u64,
    tag: Tag,
    now: u64,
)
    requires
        s.token != other,
    ensures
        next(s, EventText::Interaction(control_id(other, tag)), now).0 == s,
        next(s, EventText::Interaction(control_id(other, tag)), now).1 == if s.state.is_terminal() {
            Action::Close
        } else {
            Action::Wait
        },
{
    lemma_controls_of_others_are_foreign(s.token, other, tag);
}

/// A control that names the session with a tag that is none of the three
/// words, used in time while the form is shown, aborts the session. No
/// sub-form is opened and no entry is made.
pub proof fn lemma_unknown_tag_aborts(s: SessionModel, tag: Seq<char>, now: u64)
    requires
        s.state is Collecting,
        now < s.idle_deadline,
        tag != Tag::Ratings.text(),
        tag != Tag::Comments.text(),
        tag != Tag::Submit.text(),
    ensures
        next(s, EventText::Interaction(control_prefix(s.token) + tag), now) == (
            s.moved_to(SessionState::Aborted),
            Action::Abort(Fault::UnrecognizedInteraction),
        ),
        s.moved_to(SessionState::Aborted).entry() is None,
{
    let prefix = control_prefix(s.token);
    let id = prefix + tag;
    assert(id.subrange(0, prefix.len() as int) =~= prefix);
    assert(tag_text(s.token, id) =~= tag);
}

/// A session sees only the interactions whose identifier begins with its own
/// token and an underscore: every other interaction leaves it exactly as it
/// is, and asks nothing of its owner.
pub proof fn lemma_foreign_interactions_are_invisible(
    s: SessionModel,
    custom_id: Seq<char>,
    now: u64,
)
    requires
        !accepts(s.token, custom_id),
    ensures
        next(s, EventText::Interaction(custom_id), now).0 == s,
        next(s, EventText::Interaction(custom_id), now).1 == if s.state.is_terminal() {
            Action::Close
        } else {
            Action::Wait
        },
{
}

/// The first two controls of the form open the two sub-forms: used in time,
/// the first opens the ratings, the second the comments, whatever is filled in.
pub proof fn lemma_form_controls_open_their_sub_forms(s: SessionModel, bot: BotText, now: u64)
    requires
        s.state is Collecting,
        now < s.idle_deadline,
    ensures
        s.form(bot).controls.len() == 3,
        !s.form(bot).controls[0].disabled,
        !s.form(bot).controls[1].disabled,
        next(s, EventText::Interaction(s.form(bot).controls[0].custom_id), now) == (
            s.moved_to(SessionState::AwaitingRatingsForm),
            Action::OpenRatingsForm,
        ),
        next(s, EventText::Interaction(s.form(bot).controls[1].custom_id), now) == (
            s.moved_to(SessionState::AwaitingCommentsForm),
            Action::OpenCommentsForm,
        ),
{
    lemma_control_reaches_its_session(s.token, Tag::Ratings);
    lemma_control_reaches_its_session(s.token, Tag::Comments);
}

/// The control that submits can be used exactly when both sub-forms are
/// filled in, and its use starts the deliveries exactly then. What the
/// sub-forms hold plays no part.
pub proof fn lemma_submission_needs_both_sub_forms(s: SessionModel, bot: BotText, now: u64)
    requires
        s.state is Collecting,
        now < s.idle_deadline,
    ensures
        s.form(bot).controls[2].custom_id == control_id(s.token, Tag::Submit),
        !s.form(bot).controls[2].disabled <==> s.complete(),
        next(s, EventText::Interaction(control_id(s.token, Tag::Submit)), now).0.state
            is Finalizing <==> s.complete(),
        !s.complete() ==> next(
            s,
            EventText::Interaction(control_id(s.token, Tag::Submit)),
            now,
        ) == (s, Action::Wait),
{
    lemma_control_reaches_its_session(s.token, Tag::Submit);
}

/// Ratings that are not all numbers leave the ratings of the session as they
/// were; the participant is warned, and the form is shown again.
pub proof fn lemma_invalid_ratings_change_nothing(s: SessionModel, raw: RatingsText, now: u64)
    requires
        s.state is AwaitingRatingsForm,
        parse_ratings(raw) is Err,
    ensures
        next(s, EventText::RatingsSubmitted(raw), now).0.ratings == s.ratings,
        next(s, EventText::RatingsSubmitted(raw), now).0.comments == s.comments,
        next(s, EventText::RatingsSubmitted(raw), now).0.state is Collecting,
        next(s, EventText::RatingsSubmitted(raw), now).1 == Action::WarnAndRender,
{
}

/// A session that waits at its form and does not hear of the participant in
/// time expires: at the end of the wait, and at the use of one of its controls
/// that comes too late. It has no entry then, and its owner is asked to do
/// nothing.
pub proof fn lemma_idle_session_expires(s: SessionModel, custom_id: Seq<char>, now: u64)
    requires
        s.state is Collecting,
    ensures
        next(s, EventText::StreamEnded, now) == (
            s.moved_to(SessionState::Expired),
            Action::Close,
        ),
        accepts(s.token, custom_id) && now >= s.idle_deadline ==> next(
            s,
            EventText::Interaction(custom_id),
            now,
        ) == (s.moved_to(SessionState::Expired), Action::Close),
        s.moved_to(SessionState::Expired).entry() is None,
{
}

/// A step keeps a session well formed.
pub proof fn lemma_step_keeps_well_formed(s: SessionModel, e: EventText, now: u64)
    requires
        s.wf(),
    ensures
        next(s, e, now).0.wf(),
{
}

/// A step never changes who reports on whom, about which game and for whose
/// eyes, nor when the session was begun.
pub proof fn lemma_step_keeps_identity(s: SessionModel, e: EventText, now: u64)
    ensures
        next(s, e, now).0.token == s.token,
        next(s, e, now).0.storyteller == s.storyteller,
        next(s, e, now).0.storyteller_name == s.storyteller_name,
        next(s, e, now).0.reporter == s.reporter,
        next(s, e, now).0.game_id == s.game_id,
        next(s, e, now).0.sharing == s.sharing,
        next(s, e, now).0.created_at == s.created_at,
{
}

/// An entry is made at one step only: the use, in time, of the control that
/// submits, in a session that shows its form with both sub-forms filled in.
pub proof fn lemma_entry_is_made_by_submitting(s: SessionModel, e: EventText, now: u64)
    requires
        s.wf(),
        s.entry() is None,
        next(s, e, now).0.entry() is Some,
    ensures
        s.state is Collecting,
        s.complete(),
        now < s.idle_deadline,
        e matches EventText::Interaction(custom_id) && classify_text(s.token, custom_id)
            == Interaction::Submit,
        next(s, e, now) == (
            s.moved_to(SessionState::Finalizing(Delivery::Confirmation)),
            Action::ShowConfirmation,
        ),
{
}

/// Once an entry is made, no step changes it or takes it away, unless the
/// session is aborted.
pub proof fn lemma_entry_is_immutable(s: SessionModel, e: EventText, now: u64)
    requires
        s.wf(),
        s.entry() is Some,
    ensures
        next(s, e, now).0.state is Aborted || next(s, e, now).0.entry() == s.entry(),
{
}

/// The session after the events `events`, each with the moment at which it
/// arrives, taken in order.
pub open spec fn run(s: SessionModel, events: Seq<(EventText, u64)>) -> SessionModel
    decreases events.len(),
{
    if events.len() == 0 {
        s
    } else {
        next(run(s, events.drop_last()), events.last().0, events.last().1).0
    }
}

/// A session that is over stays as it is, whatever happens: it ends once.
pub proof fn lemma_over_is_for_good(s: SessionModel, events: Seq<(EventText, u64)>)
    requires
        s.state.is_terminal(),
    ensures
        run(s, events) == s,
    decreases events.len(),
{
    if events.len() > 0 {
        lemma_over_is_for_good(s, events.drop_last());
    }
}

/// Whatever happens to a session, it stays well formed: it has an entry only
/// if both sub-forms are filled in.
pub proof fn lemma_run_keeps_well_formed(s: SessionModel, events: Seq<(EventText, u64)>)
    requires
        s.wf(),
    ensures
        run(s, events).wf(),
        run(s, events).entry() is Some ==> run(s, events).complete(),
    decreases events.len(),
{
    if events.len() > 0 {
        lemma_run_keeps_well_formed(s, events.drop_last());
    }
}

/// A session that expired never has an entry, whatever happens afterwards.
pub proof fn lemma_expired_session_has_no_entry(s: SessionModel, events: Seq<(EventText, u64)>)
    requires
        s.state is Expired,
    ensures
        run(s, events).state is Expired,
        run(s, events).entry() is None,
{
    lemma_over_is_for_good(s, events);
}

} // verus!
