//! Rich message cards ("embeds") as plain data.

use crate::util::discord::User;
use crate::util::format::{display_username, username_spec};
use vstd::prelude::*;
use vstd::string::*;

verus! {

/// The colours the bot gives to its embeds.
#[derive(Clone, Copy, Debug, PartialEq, Eq, Structural)]
pub enum EmbedColor {
    Kiwi,
    Black,
    Gray,
    White,
    Blue,
    Cyan,
    Green,
    Orange,
    Coral,
    Red,
    DeepPink,
    Purple,
    Magenta,
    Yellow,
    Gold,
    /// The colour of Discord's own dark background: an edge that does not show.
    Blank,
}

impl EmbedColor {
    /// The colour as a 24-bit RGB number.
    pub open spec fn rgb(self) -> u32 {
        match self {
            EmbedColor::Kiwi => 0x35AA78,
            EmbedColor::Black => 0x000000,
            EmbedColor::Gray => 0xBEBEBE,
            EmbedColor::White => 0xFFFFFF,
            EmbedColor::Blue => 0x0000FF,
            EmbedColor::Cyan => 0x00FFFF,
            EmbedColor::Green => 0x00FF00,
            EmbedColor::Orange => 0xFFA500,
            EmbedColor::Coral => 0xFF7F50,
            EmbedColor::Red => 0xFF0000,
            EmbedColor::DeepPink => 0xFF1493,
            EmbedColor::Purple => 0xA020F0,
            EmbedColor::Magenta => 0xFF00FF,
            EmbedColor::Yellow => 0xFFFF00,
            EmbedColor::Gold => 0xFFD700,
            EmbedColor::Blank => 0x2F3136,
        }
    }

    /// The colour as a 24-bit RGB number.
    pub fn value(self) -> (rgb: u32)
        ensures
            rgb == self.rgb(),
    {
        match self {
            EmbedColor::Kiwi => 0x35AA78,
            EmbedColor::Black => 0x000000,
            EmbedColor::Gray => 0xBEBEBE,
            EmbedColor::White => 0xFFFFFF,
            EmbedColor::Blue => 0x0000FF,
            EmbedColor::Cyan => 0x00FFFF,
            EmbedColor::Green => 0x00FF00,
            EmbedColor::Orange => 0xFFA500,
            EmbedColor::Coral => 0xFF7F50,
            EmbedColor::Red => 0xFF0000,
            EmbedColor::DeepPink => 0xFF1493,
            EmbedColor::Purple => 0xA020F0,
            EmbedColor::Magenta => 0xFF00FF,
            EmbedColor::Yellow => 0xFFFF00,
            EmbedColor::Gold => 0xFFD700,
            EmbedColor::Blank => 0x2F3136,
        }
    }
}

impl Default for EmbedColor {
    fn default() -> (colour: EmbedColor)
        ensures
            colour == EmbedColor::Kiwi,
    {
        EmbedColor::Kiwi
    }
}

/// One titled entry of an embed.
#[derive(Debug, Clone)]
pub struct EmbedField {
    pub name: String,
    pub value: String,
    pub inline: bool,
}

/// The small print under an embed.
#[derive(Debug, Clone)]
pub struct EmbedFooter {
    pub text: String,
    pub icon_url: Option<String>,
}

/// Who an embed is attributed to.
#[derive(Debug, Clone)]
pub struct EmbedAuthor {
    pub name: String,
    pub icon_url: Option<String>,
}

/// An embed: the card of structured text that accompanies a message.
#[derive(Debug, Clone)]
pub struct Embed {
    pub title: Option<String>,
    pub description: Option<String>,
    /// 24-bit RGB colour of the card's edge.
    pub colour: Option<u32>,
    pub fields: Vec<EmbedField>,
    pub thumbnail: Option<String>,
    pub image: Option<String>,
    pub footer: Option<EmbedFooter>,
    pub author: Option<EmbedAuthor>,
}

/// A file sent along with a message, known by its name.
#[derive(Debug, Clone)]
pub struct CreateAttachment {
    pub filename: String,
}

/// Builder of the embeds that answer a command: kiwi coloured, with a
/// footer naming who asked.
#[derive(Debug)]
pub struct CreateJanitorEmbed(pub Embed);

impl CreateJanitorEmbed {
    /// The text of the footer: `Requested by ` and the user's shown name.
    pub open spec fn footer_text(user: User) -> Seq<char> {
        "Requested by "@ + username_spec(user)
    }

    /// A fresh embed for an answer to `interaction_user`.
    pub fn new(interaction_user: &User) -> (embed: Self)
        ensures
            embed.0.title is None,
            embed.0.description is None,
            embed.0.colour == Some(EmbedColor::Kiwi.rgb()),
            embed.0.fields@.len() == 0,
            embed.0.thumbnail is None,
            embed.0.image is None,
            embed.0.author is None,
            embed.0.footer is Some,
            embed.0.footer->0.text@ == Self::footer_text(*interaction_user),
            embed.0.footer->0.icon_url is Some,
            embed.0.footer->0.icon_url->0@ == interaction_user.avatar_url@,
    {
        let mut text = String::new();
        text.append("Requested by ");
        text.append(display_username(interaction_user));
        assert(text@ =~= Self::footer_text(*interaction_user));
        let footer = EmbedFooter { text, icon_url: Some(interaction_user.avatar_url.clone()) };
        CreateJanitorEmbed(
            Embed {
                title: None,
                description: None,
                colour: Some(EmbedColor::Kiwi.value()),
                fields: Vec::new(),
                thumbnail: None,
                image: None,
                footer: Some(footer),
                author: None,
            },
        )
    }

    /// Shows the user's avatar as the embed's thumbnail.
    pub fn avatar_thumbnail(self, user: &User) -> (embed: Self)
        ensures
            embed.0.thumbnail is Some,
            embed.0.thumbnail->0@ == user.avatar_url@,
            embed.0.title == self.0.title,
            embed.0.description == self.0.description,
            embed.0.colour == self.0.colour,
            embed.0.fields == self.0.fields,
            embed.0.image == self.0.image,
            embed.0.footer == self.0.footer,
            embed.0.author == self.0.author,
    {
        let mut inner = self.0;
        inner.thumbnail = Some(user.avatar_url.clone());
        CreateJanitorEmbed(inner)
    }

    /// Attributes the embed to the bot: its shown name, with its avatar.
    /// Where the bot's own account could not be resolved, the embed stays as
    /// it is.
    pub fn bot_author(self, bot_user: Option<&User>) -> (embed: Self)
        ensures
            match bot_user {
                Some(bot) => embed.0.author is Some && embed.0.author->0.name@ == username_spec(
                    *bot,
                ) && embed.0.author->0.icon_url is Some && embed.0.author->0.icon_url->0@
                    == bot.avatar_url@,
                None => embed.0.author == self.0.author,
            },
            embed.0.title == self.0.title,
            embed.0.description == self.0.description,
            embed.0.colour == self.0.colour,
            embed.0.fields == self.0.fields,
            embed.0.thumbnail == self.0.thumbnail,
            embed.0.image == self.0.image,
            embed.0.footer == self.0.footer,
    {
        match bot_user {
            Some(bot) => {
                let mut inner = self.0;
                inner.author = Some(
                    EmbedAuthor {
                        name: String::from_str(display_username(bot)),
                        icon_url: Some(bot.avatar_url.clone()),
                    },
                );
                CreateJanitorEmbed(inner)
            },
            None => self,
        }
    }

    /// The embed that was built.
    pub fn into_embed(self) -> (embed: Embed)
        ensures
            embed == self.0,
    {
        self.0
    }
}

/// A fresh embed for an answer to `interaction_user`: kiwi coloured, with
/// a footer naming who asked.
pub fn create_default_embed(interaction_user: &User) -> (embed: Embed)
    ensures
        embed.title is None,
        embed.description is None,
        embed.colour == Some(EmbedColor::Kiwi.rgb()),
        embed.fields@.len() == 0,
        embed.thumbnail is None,
        embed.image is None,
        embed.author is None,
        embed.footer is Some,
        embed.footer->0.text@ == CreateJanitorEmbed::footer_text(*interaction_user),
        embed.footer->0.icon_url is Some,
        embed.footer->0.icon_url->0@ == interaction_user.avatar_url@,
{
    CreateJanitorEmbed::new(interaction_user).into_embed()
}

} // verus!
