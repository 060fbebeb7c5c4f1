//! Embeds: the framed messages in which the assistant shows its forms.

use vstd::prelude::*;
use vstd::string::*;
use crate::text::{clone_optional, optional_text};

verus! {

/// What an embed shows of the assistant itself.
#[derive(Debug)]
pub struct BotProfile {
    pub name: String,
    pub avatar_url: Option<String>,
}

/// What a `BotProfile` holds, as plain text.
pub struct BotText {
    pub name: Seq<char>,
    pub avatar_url: Option<Seq<char>>,
}

impl View for BotProfile {
    type V = BotText;

    open spec fn view(&self) -> BotText {
        BotText { name: self.name@, avatar_url: optional_text(self.avatar_url) }
    }
}

/// A named value shown in an embed.
#[derive(Debug)]
pub struct EmbedField {
    pub name: String,
    pub value: String,
    pub inline: bool,
}

/// What an `EmbedField` holds, as plain text.
pub struct FieldText {
    pub name: Seq<char>,
    pub value: Seq<char>,
    pub inline: bool,
}

impl View for EmbedField {
    type V = FieldText;

    open spec fn view(&self) -> FieldText {
        FieldText { name: self.name@, value: self.value@, inline: self.inline }
    }
}

/// A framed message: a title line and a footer, each with an optional icon, an
/// optional description, and fields in the order in which they are shown.
#[derive(Debug)]
pub struct Embed {
    pub author: String,
    pub author_icon: Option<String>,
    pub footer: String,
    pub footer_icon: Option<String>,
    pub description: Option<String>,
    pub fields: Vec<EmbedField>,
}

/// What an `Embed` holds, as plain text.
pub struct EmbedText {
    pub author: Seq<char>,
    pub author_icon: Option<Seq<char>>,
    pub footer: Seq<char>,
    pub footer_icon: Option<Seq<char>>,
    pub description: Option<Seq<char>>,
    pub fields: Seq<FieldText>,
}

/// The fields of an embed, each as plain text.
pub open spec fn field_texts(fields: Seq<EmbedField>) -> Seq<FieldText> {
    fields.map_values(|field: EmbedField| field@)
}

impl View for Embed {
    type V = EmbedText;

    open spec fn view(&self) -> EmbedText {
        EmbedText {
            author: self.author@,
            author_icon: optional_text(self.author_icon),
            footer: self.footer@,
            footer_icon: optional_text(self.footer_icon),
            description: optional_text(self.description),
            fields: field_texts(self.fields@),
        }
    }
}

/// The barebones embed titled `title`: the title stands in the author line, the
/// assistant's name in the footer, and the assistant's avatar, if it has one,
/// beside both. It has no description and no fields.
pub open spec fn bare_embed(bot: BotText, title: Seq<char>) -> EmbedText {
    EmbedText {
        author: title,
        author_icon: bot.avatar_url,
        footer: bot.name,
        footer_icon: bot.avatar_url,
        description: None,
        fields: Seq::empty(),
    }
}

/// Creates a new barebones embed.
pub fn new_embed(bot: &BotProfile, title: &str) -> (embed: Embed)
    ensures
        embed@ == bare_embed(bot@, title@),
{
    let embed = Embed {
        author: String::from_str(title),
        author_icon: clone_optional(&bot.avatar_url),
        footer: bot.name.clone(),
        footer_icon: clone_optional(&bot.avatar_url),
        description: None,
        fields: Vec::new(),
    };
    assert(field_texts(embed.fields@) =~= Seq::<FieldText>::empty());
    embed
}

} // verus!
