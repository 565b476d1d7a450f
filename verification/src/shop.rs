use vstd::prelude::*;
use crate::ids::{ItemId, NpcId};

verus! {

/// An item an npc shop sells.
#[derive(Debug, Clone, Copy, PartialEq, Eq, Structural)]
pub struct ShopItem {
    pub item_id: ItemId,
    pub price: u32,
    pub discount_rate: u8,
    pub token_item_id: ItemId,
    pub token_price: u32,
    pub item_period: u32,
    pub level_limited: u32,
    pub quantity: u16,
    pub max_per_slot: u16,
}

/// The opening of an npc shop, with its items.
#[derive(Debug, Clone)]
pub struct OpenShopResp {
    pub npc_tmpl_id: NpcId,
    pub items: Vec<ShopItem>,
}

/// The result of a request to a shop.
#[derive(Debug, Clone)]
pub enum ShopResultResp {
    BuySuccess,
    BuyNoStock,
    BuyNoMoney,
    BuyUnknown,
    SellSuccess,
    SellNoStock,
    SellIncorrectRequest,
    SellUnkonwn,
    RechargeSuccess,
    RechargeNoStock,
    RechargeNoMoney,
    RechargeIncorrectRequest,
    RechargeUnknown,
    BuyNoToken,
    LimitLevelLess(u32),
    LimitLevelMore(u32),
    CantBuyAnymore,
    TradeBlocked,
    BuyLimit,
    ServerMsg(Option<String>),
}

impl ShopResultResp {
    /// The tag of the variant on the wire.
    pub fn tag(&self) -> (r: u8)
        ensures
            r == (match *self {
                ShopResultResp::BuySuccess => 0u8,
                ShopResultResp::BuyNoStock => 1u8,
                ShopResultResp::BuyNoMoney => 2u8,
                ShopResultResp::BuyUnknown => 3u8,
                ShopResultResp::SellSuccess => 4u8,
                ShopResultResp::SellNoStock => 5u8,
                ShopResultResp::SellIncorrectRequest => 6u8,
                ShopResultResp::SellUnkonwn => 7u8,
                ShopResultResp::RechargeSuccess => 8u8,
                ShopResultResp::RechargeNoStock => 9u8,
                ShopResultResp::RechargeNoMoney => 10u8,
                ShopResultResp::RechargeIncorrectRequest => 11u8,
                ShopResultResp::RechargeUnknown => 12u8,
                ShopResultResp::BuyNoToken => 13u8,
                ShopResultResp::LimitLevelLess(_) => 14u8,
                ShopResultResp::LimitLevelMore(_) => 15u8,
                ShopResultResp::CantBuyAnymore => 16u8,
                ShopResultResp::TradeBlocked => 17u8,
                ShopResultResp::BuyLimit => 18u8,
                ShopResultResp::ServerMsg(_) => 19u8,
            }),
    {
        match self {
            ShopResultResp::BuySuccess => 0,
            ShopResultResp::BuyNoStock => 1,
            ShopResultResp::BuyNoMoney => 2,
            ShopResultResp::BuyUnknown => 3,
            ShopResultResp::SellSuccess => 4,
            ShopResultResp::SellNoStock => 5,
            ShopResultResp::SellIncorrectRequest => 6,
            ShopResultResp::SellUnkonwn => 7,
            ShopResultResp::RechargeSuccess => 8,
            ShopResultResp::RechargeNoStock => 9,
            ShopResultResp::RechargeNoMoney => 10,
            ShopResultResp::RechargeIncorrectRequest => 11,
            ShopResultResp::RechargeUnknown => 12,
            ShopResultResp::BuyNoToken => 13,
            ShopResultResp::LimitLevelLess(_) => 14,
            ShopResultResp::LimitLevelMore(_) => 15,
            ShopResultResp::CantBuyAnymore => 16,
            ShopResultResp::TradeBlocked => 17,
            ShopResultResp::BuyLimit => 18,
            ShopResultResp::ServerMsg(_) => 19,
        }
    }
}

/// A purchase from a shop.
#[derive(Debug, Clone, Copy, PartialEq, Eq, Structural)]
pub struct ShopBuy {
    pub pos: u16,
    pub tmpl_id: u32,
    pub count: u16,
}

/// A sale to a shop.
#[derive(Debug, Clone, Copy, PartialEq, Eq, Structural)]
pub struct ShopSell {
    pub slot: u16,
    pub tmpl_id: u32,
    pub count: u16,
}

/// A request of a player to a shop.
#[derive(Debug, Clone, Copy, PartialEq, Eq, Structural)]
pub enum ShopUserReq {
    Buy(ShopBuy),
    Sell(ShopSell),
    Recharge(u16),
    Close,
}

impl ShopUserReq {
    /// The tag of the variant on the wire.
    pub fn tag(&self) -> (r: u8)
        ensures
            r == (match *self {
                ShopUserReq::Buy(_) => 0u8,
                ShopUserReq::Sell(_) => 1u8,
                ShopUserReq::Recharge(_) => 2u8,
                ShopUserReq::Close => 3u8,
            }),
    {
        match self {
            ShopUserReq::Buy(_) => 0,
            ShopUserReq::Sell(_) => 1,
            ShopUserReq::Recharge(_) => 2,
            ShopUserReq::Close => 3,
        }
    }
}

} // verus!
