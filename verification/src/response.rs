//! What a handler hands back: the messages to send on, in order, and a few labels.

use vstd::prelude::*;
use vstd::string::StringExecFns;

use crate::croncat::{Asset, AssetView, TaskRequest, TaskRequestView};
use crate::dex::{Decimal, OfferAsset, OfferAssetView};

verus! {

/// A message for one of the app's collaborators. The app only describes it; sending
/// is the caller's part.
#[derive(Debug, PartialEq, Eq)]
pub enum AppMsg {
    /// Asks the scheduler to register a task under `task_tag`, funded with `assets`.
    CreateTask { task: TaskRequest, task_tag: String, assets: Asset },
    /// Asks the scheduler to drop the task registered under `task_tag`.
    RemoveTask { task_tag: String },
    /// Asks the scheduler to add `assets` to the balance of the task under `task_tag`.
    RefillTask { task_tag: String, assets: Asset },
    /// Asks the exchange `dex` to trade `offer_asset` for `ask_asset`.
    Swap {
        dex: String,
        offer_asset: OfferAsset,
        ask_asset: String,
        max_spread: Option<Decimal>,
        belief_price: Option<Decimal>,
    },
}

/// An [`AppMsg`] with its texts as character sequences.
pub enum AppMsgView {
    CreateTask { task: TaskRequestView, task_tag: Seq<char>, assets: AssetView },
    RemoveTask { task_tag: Seq<char> },
    RefillTask { task_tag: Seq<char>, assets: AssetView },
    Swap {
        dex: Seq<char>,
        offer_asset: OfferAssetView,
        ask_asset: Seq<char>,
        max_spread: Option<Decimal>,
        belief_price: Option<Decimal>,
    },
}

impl View for AppMsg {
    type V = AppMsgView;

    open spec fn view(&self) -> AppMsgView {
        match *self {
            AppMsg::CreateTask { task, task_tag, assets } => AppMsgView::CreateTask {
                task: task@,
                task_tag: task_tag@,
                assets: assets@,
            },
            AppMsg::RemoveTask { task_tag } => AppMsgView::RemoveTask { task_tag: task_tag@ },
            AppMsg::RefillTask { task_tag, assets } => AppMsgView::RefillTask {
                task_tag: task_tag@,
                assets: assets@,
            },
            AppMsg::Swap { dex, offer_asset, ask_asset, max_spread, belief_price } => {
                AppMsgView::Swap {
                    dex: dex@,
                    offer_asset: offer_asset@,
                    ask_asset: ask_asset@,
                    max_spread,
                    belief_price,
                }
            },
        }
    }
}

/// A label on a response.
#[derive(Debug, PartialEq, Eq)]
pub struct Attribute {
    pub key: String,
    pub value: String,
}

/// An [`Attribute`] with its texts as character sequences.
pub struct AttributeView {
    pub key: Seq<char>,
    pub value: Seq<char>,
}

impl View for Attribute {
    type V = AttributeView;

    open spec fn view(&self) -> AttributeView {
        AttributeView { key: self.key@, value: self.value@ }
    }
}

/// The outcome of a request that went through.
#[derive(Debug, PartialEq, Eq)]
pub struct Response {
    /// The messages to send on, in this order.
    pub messages: Vec<AppMsg>,
    /// Labels that tell what happened.
    pub attributes: Vec<Attribute>,
    /// The name of the operation that answered; empty until the response is tagged.
    pub action: String,
}

/// A [`Response`] with its texts as character sequences.
pub struct ResponseView {
    pub messages: Seq<AppMsgView>,
    pub attributes: Seq<AttributeView>,
    pub action: Seq<char>,
}

impl View for Response {
    type V = ResponseView;

    open spec fn view(&self) -> ResponseView {
        ResponseView {
            messages: self.messages@.map_values(|msg: AppMsg| msg@),
            attributes: self.attributes@.map_values(|attribute: Attribute| attribute@),
            action: self.action@,
        }
    }
}

impl Response {
    /// A response without messages, attributes or tag.
    pub fn new() -> (response: Response)
        ensures
            response@.messages == Seq::<AppMsgView>::empty(),
            response@.attributes == Seq::<AttributeView>::empty(),
            response@.action == Seq::<char>::empty(),
    {
        let response = Response {
            messages: Vec::new(),
            attributes: Vec::new(),
            action: String::new(),
        };
        response
    }

    /// The response with `msg` behind the messages it already holds.
    pub fn add_message(self, msg: AppMsg) -> (response: Response)
        ensures
            response@.messages == self@.messages.push(msg@),
            response@.attributes == self@.attributes,
            response@.action == self@.action,
    {
        let mut response = self;
        response.messages.push(msg);
        response
    }

    /// The response with `messages` behind the messages it already holds.
    pub fn add_messages(self, messages: Vec<AppMsg>) -> (response: Response)
        ensures
            response@.messages == self@.messages + messages@.map_values(|msg: AppMsg| msg@),
            response@.attributes == self@.attributes,
            response@.action == self@.action,
    {
        let mut response = self;
        let mut rest = messages;
        response.messages.append(&mut rest);
        response
    }

    /// The response with one more attribute behind those it already holds.
    pub fn add_attribute(self, key: &str, value: String) -> (response: Response)
        ensures
            response@.messages == self@.messages,
            response@.attributes == self@.attributes.push(
                AttributeView { key: key@, value: value@ },
            ),
            response@.action == self@.action,
    {
        let mut response = self;
        let attribute = Attribute { key: String::from_str(key), value };
        response.attributes.push(attribute);
        response
    }
}

/// Marks `response` as the answer of the operation `action`.
pub fn tag_response(response: Response, action: &str) -> (tagged: Response)
    ensures
        tagged@.messages == response@.messages,
        tagged@.attributes == response@.attributes,
        tagged@.action == action@,
{
    let mut tagged = response;
    tagged.action = String::from_str(action);
    tagged
}

} // verus!
