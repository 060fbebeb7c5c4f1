//! Submitting feedback on a Storyteller.
//!
//! A participant fills in two sub-forms, ratings and comments, in any order and
//! as often as they like, and then submits. This module holds what is shown
//! while they do so, and the session that decides, event by event, what happens
//! next. Showing, asking and sending are left to the caller.

use vstd::prelude::*;
use vstd::string::*;
use crate::discord::utils::{
    bare_embed, field_texts, new_embed, BotProfile, BotText, Embed, EmbedField, EmbedText,
    FieldText,
};
use crate::models::feedback::FeedbackVisibility;
use crate::text::{decimal, decimal_string};

verus! {

/// How a control looks.
#[derive(Clone, Copy, Debug, PartialEq, Eq, Structural)]
pub enum ButtonStyle {
    /// A sub-form that is still to be filled in.
    Primary,
    /// A sub-form that has been filled in.
    Secondary,
    /// The control that submits.
    Success,
}

/// A control under the feedback form.
#[derive(Debug)]
pub struct Button {
    pub custom_id: String,
    pub label: String,
    pub style: ButtonStyle,
    pub disabled: bool,
}

/// What a `Button` holds, as plain text.
pub struct ButtonText {
    pub custom_id: Seq<char>,
    pub label: Seq<char>,
    pub style: ButtonStyle,
    pub disabled: bool,
}

impl View for Button {
    type V = ButtonText;

    open spec fn view(&self) -> ButtonText {
        ButtonText {
            custom_id: self.custom_id@,
            label: self.label@,
            style: self.style,
            disabled: self.disabled,
        }
    }
}

/// The controls of a form, each as plain text.
pub open spec fn button_texts(buttons: Seq<Button>) -> Seq<ButtonText> {
    buttons.map_values(|button: Button| button@)
}

/// What the participant sees: an embed, and the controls under it, in the
/// order in which they are shown. A view without controls is a closed form.
#[derive(Debug)]
pub struct FeedbackView {
    pub embed: Embed,
    pub controls: Vec<Button>,
}

/// What a `FeedbackView` holds, as plain text.
pub struct ViewText {
    pub embed: EmbedText,
    pub controls: Seq<ButtonText>,
}

impl View for FeedbackView {
    type V = ViewText;

    open spec fn view(&self) -> ViewText {
        ViewText { embed: self.embed@, controls: button_texts(self.controls@) }
    }
}

/// What a control asks for.
#[derive(Clone, Copy, Debug, PartialEq, Eq, Structural)]
pub enum Tag {
    Ratings,
    Comments,
    Submit,
}

impl Tag {
    /// The word that ends the identifier of a control with this tag.
    pub open spec fn text(self) -> Seq<char> {
        match self {
            Tag::Ratings => "ratings"@,
            Tag::Comments => "comments"@,
            Tag::Submit => "submit"@,
        }
    }

    /// The word that ends the identifier of a control with this tag.
    pub fn word(&self) -> (word: &'static str)
        ensures
            word@ == self.text(),
    {
        match self {
            Tag::Ratings => "ratings",
            Tag::Comments => "comments",
            Tag::Submit => "submit",
        }
    }
}

/// What begins the identifier of every control of the session with token
/// `token`: the token in decimal, and an underscore.
pub open spec fn control_prefix(token: u64) -> Seq<char> {
    decimal(token as nat) + seq!['_']
}

/// The identifier of the control with tag `tag` in the session with token
/// `token`: the token in decimal, an underscore, and the tag's word.
pub open spec fn control_id(token: u64, tag: Tag) -> Seq<char> {
    control_prefix(token) + tag.text()
}

/// What begins the identifier of every control of the session with token `token`.
pub fn control_prefix_string(token: u64) -> (prefix: String)
    ensures
        prefix@ == control_prefix(token),
{
    proof {
        reveal_strlit("_");
    }
    let mut prefix = decimal_string(token);
    prefix.append("_");
    assert("_"@ =~= seq!['_']);
    prefix
}

/// The identifier of the control with tag `tag` in the session with token `token`.
pub fn control_id_string(token: u64, tag: Tag) -> (id: String)
    ensures
        id@ == control_id(token, tag),
{
    let mut id = control_prefix_string(token);
    id.append(tag.word());
    id
}

/// The title of the feedback form for the Storyteller called `name`.
pub open spec fn form_title(name: Seq<char>) -> Seq<char> {
    "Storyteller feedback for "@ + name
}

/// The title of the receipt for feedback on the Storyteller called `name`.
pub open spec fn receipt_title(name: Seq<char>) -> Seq<char> {
    "Submitted feedback for "@ + name
}

/// The mark beside a sub-form: a check where it is filled in, a cross where it is not.
pub open spec fn completion_mark(filled: bool) -> Seq<char> {
    if filled {
        ":white_check_mark:"@
    } else {
        ":x:"@
    }
}

/// What the feedback form says about itself under its title.
pub open spec fn form_description(mode: FeedbackVisibility) -> Seq<char> {
    "Your feedback is "@ + mode.label_text()
        + ".\nClick the buttons below to fill out the feedback form."@
}

/// The embed of the feedback form: its title names the Storyteller, its
/// description says who will see the feedback, and its two fields, `Ratings`
/// and `Comments` in that order, say which sub-forms are filled in.
pub open spec fn feedback_embed_text(
    bot: BotText,
    name: Seq<char>,
    mode: FeedbackVisibility,
    comments: bool,
    ratings: bool,
) -> EmbedText {
    EmbedText {
        description: Some(form_description(mode)),
        fields: seq![
            FieldText { name: "Ratings"@, value: completion_mark(ratings), inline: true },
            FieldText { name: "Comments"@, value: completion_mark(comments), inline: true },
        ],
        ..bare_embed(bot, form_title(name))
    }
}

/// The style of the control that opens a sub-form.
pub open spec fn fill_style(filled: bool) -> ButtonStyle {
    if filled {
        ButtonStyle::Secondary
    } else {
        ButtonStyle::Primary
    }
}

/// The three controls under the feedback form of the session with token
/// `token`: one to fill in the ratings, one to fill in the comments, and one to
/// submit. The last can be used when both sub-forms are filled in, and then only.
pub open spec fn feedback_buttons_text(token: u64, comments: bool, ratings: bool) -> Seq<
    ButtonText,
> {
    seq![
        ButtonText {
            custom_id: control_id(token, Tag::Ratings),
            label: "Create ratings"@,
            style: fill_style(ratings),
            disabled: false,
        },
        ButtonText {
            custom_id: control_id(token, Tag::Comments),
            label: "Leave comments"@,
            style: fill_style(comments),
            disabled: false,
        },
        ButtonText {
            custom_id: control_id(token, Tag::Submit),
            label: "Submit feedback"@,
            style: ButtonStyle::Success,
            disabled: !(comments && ratings),
        },
    ]
}

/// The feedback form as the participant sees it.
pub open spec fn feedback_view_text(
    bot: BotText,
    token: u64,
    name: Seq<char>,
    mode: FeedbackVisibility,
    comments: bool,
    ratings: bool,
) -> ViewText {
    ViewText {
        embed: feedback_embed_text(bot, name, mode, comments, ratings),
        controls: feedback_buttons_text(token, comments, ratings),
    }
}

/// What replaces the feedback form once the feedback is submitted: a word of
/// thanks, and no controls.
pub open spec fn confirmation_view_text(bot: BotText, name: Seq<char>) -> ViewText {
    ViewText {
        embed: EmbedText {
            description: Some("Feedback submitted; thank you!"@),
            ..bare_embed(bot, form_title(name))
        },
        controls: Seq::empty(),
    }
}

/// The receipt that is sent to the reporter: the entry, as `entry` renders it,
/// set as a block of code.
pub open spec fn receipt_embed_text(bot: BotText, name: Seq<char>, entry: Seq<char>) -> EmbedText {
    EmbedText {
        description: Some("```rust\n"@ + entry + "\n```"@),
        ..bare_embed(bot, receipt_title(name))
    }
}

/// `head` followed by `tail`.
fn joined(head: &str, tail: &str) -> (text: String)
    ensures
        text@ == head@ + tail@,
{
    let mut text = String::from_str(head);
    text.append(tail);
    text
}

/// The mark beside a sub-form.
fn completion_mark_string(filled: bool) -> (mark: String)
    ensures
        mark@ == completion_mark(filled),
{
    if filled {
        String::from_str(":white_check_mark:")
    } else {
        String::from_str(":x:")
    }
}

/// Creates an embed that shows the state of the feedback entry.
pub fn feedback_embed(
    bot: &BotProfile,
    name: &str,
    mode: FeedbackVisibility,
    comments: bool,
    ratings: bool,
) -> (embed: Embed)
    ensures
        embed@ == feedback_embed_text(bot@, name@, mode, comments, ratings),
{
    let title = joined("Storyteller feedback for ", name);
    let mut embed = new_embed(bot, title.as_str());
    let mut description = joined("Your feedback is ", mode.label());
    description.append(".\nClick the buttons below to fill out the feedback form.");
    embed.description = Some(description);
    let mut fields: Vec<EmbedField> = Vec::new();
    fields.push(
        EmbedField {
            name: String::from_str("Ratings"),
            value: completion_mark_string(ratings),
            inline: true,
        },
    );
    fields.push(
        EmbedField {
            name: String::from_str("Comments"),
            value: completion_mark_string(comments),
            inline: true,
        },
    );
    assert(field_texts(fields@) =~= feedback_embed_text(
        bot@,
        name@,
        mode,
        comments,
        ratings,
    ).fields);
    embed.fields = fields;
    embed
}

/// The style of the control that opens a sub-form.
fn fill_style_of(filled: bool) -> (style: ButtonStyle)
    ensures
        style == fill_style(filled),
{
    if filled {
        ButtonStyle::Secondary
    } else {
        ButtonStyle::Primary
    }
}

/// Creates the controls under the feedback form.
pub fn create_feedback_buttons(token: u64, comments: bool, ratings: bool) -> (buttons: Vec<Button>)
    ensures
        button_texts(buttons@) == feedback_buttons_text(token, comments, ratings),
{
    let can_submit = comments && ratings;
    let mut buttons: Vec<Button> = Vec::new();
    buttons.push(
        Button {
            custom_id: control_id_string(token, Tag::Ratings),
            label: String::from_str("Create ratings"),
            style: fill_style_of(ratings),
            disabled: false,
        },
    );
    buttons.push(
        Button {
            custom_id: control_id_string(token, Tag::Comments),
            label: String::from_str("Leave comments"),
            style: fill_style_of(comments),
            disabled: false,
        },
    );
    buttons.push(
        Button {
            custom_id: control_id_string(token, Tag::Submit),
            label: String::from_str("Submit feedback"),
            style: ButtonStyle::Success,
            disabled: !can_submit,
        },
    );
    assert(button_texts(buttons@) =~= feedback_buttons_text(token, comments, ratings));
    buttons
}

/// The feedback form as the participant sees it: the embed and the controls.
pub fn feedback_view(
    bot: &BotProfile,
    token: u64,
    name: &str,
    mode: FeedbackVisibility,
    comments: bool,
    ratings: bool,
) -> (view: FeedbackView)
    ensures
        view@ == feedback_view_text(bot@, token, name@, mode, comments, ratings),
{
    FeedbackView {
        embed: feedback_embed(bot, name, mode, comments, ratings),
        controls: create_feedback_buttons(token, comments, ratings),
    }
}

/// What replaces the feedback form once the feedback is submitted.
pub fn confirmation_view(bot: &BotProfile, name: &str) -> (view: FeedbackView)
    ensures
        view@ == confirmation_view_text(bot@, name@),
{
    let title = joined("Storyteller feedback for ", name);
    let mut embed = new_embed(bot, title.as_str());
    embed.description = Some(String::from_str("Feedback submitted; thank you!"));
    let view = FeedbackView { embed, controls: Vec::new() };
    assert(button_texts(view.controls@) =~= Seq::<ButtonText>::empty());
    view
}

/// The receipt that is sent to the reporter. `entry` is the submitted entry as
/// the caller renders it.
pub fn receipt_embed(bot: &BotProfile, name: &str, entry: &str) -> (embed: Embed)
    ensures
        embed@ == receipt_embed_text(bot@, name@, entry@),
{
    let title = joined("Submitted feedback for ", name);
    let mut embed = new_embed(bot, title.as_str());
    let mut description = joined("```rust\n", entry);
    description.append("\n```");
    embed.description = Some(description);
    embed
}

} // verus!
