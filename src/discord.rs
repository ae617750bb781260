//! Events handed to the notification channel.

use crate::ids::Address;
use vstd::prelude::*;
use vstd::string::*;

verus! {

/// What a notification says, as plain text.
pub ghost enum NotificationView {
    Initiated { chain: Seq<char>, name: Seq<char>, name_id: Seq<char> },
    Processed { chain: Seq<char>, name: Seq<char>, name_id: Seq<char>, link: Seq<char> },
}

/// A notification: a cashback was detected, or a cashback was paid out (with the
/// explorer link of the payout transaction).
#[derive(Debug)]
pub enum DiscordMessage {
    CashbackInitiated(Address, (String, Address)),
    CashbackProcessed(Address, (String, Address), String),
}

/// The text posted for a notification.
pub open spec fn content_text(m: NotificationView) -> Seq<char> {
    match m {
        NotificationView::Initiated { chain, name, name_id } => ":sparkles:  **"@ + name + "@** ("@
            + name_id + ") initiated cashback"@,
        NotificationView::Processed { chain, name, name_id, link } => ":moneybag:  Cashback processed for **"@
            + name + "@** ("@ + name_id + "): ["@ + link + "]"@,
    }
}

/// The channel that a chain's notifications go to.
pub open spec fn channel_of(chain: Seq<char>) -> Option<u64> {
    if chain == "iJhCezBExJHvtyH3fGhNnt2NhU4Ztkf2yq"@ {
        Some(1227894258216734782u64)
    } else if chain == "iExBJfZYK7KREDpuhj6PzZBzqMAKaFg7d2"@ {
        Some(1227869235942785035u64)
    } else {
        None
    }
}

/// The channel that this chain's notifications go to, if it has one.
pub fn channel_for(chain: &Address) -> (r: Option<u64>)
    ensures
        r == channel_of(chain@),
{
    if chain.text == String::from_str("iJhCezBExJHvtyH3fGhNnt2NhU4Ztkf2yq") {
        Some(1227894258216734782u64)
    } else if chain.text == String::from_str("iExBJfZYK7KREDpuhj6PzZBzqMAKaFg7d2") {
        Some(1227869235942785035u64)
    } else {
        None
    }
}

impl DiscordMessage {
    /// The chain the notification belongs to.
    pub fn chain(&self) -> (r: &Address)
        ensures
            r@ == (match self@ {
                NotificationView::Initiated { chain, .. } => chain,
                NotificationView::Processed { chain, .. } => chain,
            }),
    {
        match self {
            DiscordMessage::CashbackInitiated(chain, _) => chain,
            DiscordMessage::CashbackProcessed(chain, _, _) => chain,
        }
    }

    /// The text to post.
    pub fn content(&self) -> (r: String)
        ensures
            r@ == content_text(self@),
    {
        match self {
            DiscordMessage::CashbackInitiated(_, (name, name_id)) => {
                let s = String::from_str(":sparkles:  **");
                let s = s.concat(name.as_str());
                let s = s.concat("@** (");
                let s = s.concat(name_id.text.as_str());
                s.concat(") initiated cashback")
            },
            DiscordMessage::CashbackProcessed(_, (name, name_id), link) => {
                let s = String::from_str(":moneybag:  Cashback processed for **");
                let s = s.concat(name.as_str());
                let s = s.concat("@** (");
                let s = s.concat(name_id.text.as_str());
                let s = s.concat("): [");
                let s = s.concat(link.as_str());
                s.concat("]")
            },
        }
    }

    pub open spec fn view(&self) -> NotificationView {
        match self {
            DiscordMessage::CashbackInitiated(chain, (name, name_id)) => NotificationView::Initiated {
                chain: chain@,
                name: name@,
                name_id: name_id@,
            },
            DiscordMessage::CashbackProcessed(chain, (name, name_id), link) => NotificationView::Processed {
                chain: chain@,
                name: name@,
                name_id: name_id@,
                link: link@,
            },
        }
    }
}

} // verus!
