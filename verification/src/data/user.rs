//! The user and the user's accounts.

use super::types::{Currency, Market};
use crate::decimal::{decimal_from_i64, decimal_of};
use crate::text::same_text;
use rust_decimal::Decimal;
use vstd::prelude::*;

verus! {

#[derive(Debug)]
pub struct User {
    pub account_channel: String,
    pub aaid: String,
    pub base_currency: String,
}

impl Default for User {
    fn default() -> (r: Self)
        ensures
            r.account_channel@.len() == 0,
            r.aaid@.len() == 0,
            r.base_currency@ == "HKD"@,
    {
        User {
            account_channel: String::new(),
            aaid: String::new(),
            base_currency: String::from_str("HKD"),
        }
    }
}

impl Clone for User {
    fn clone(&self) -> (r: Self)
        ensures
            r == *self,
    {
        User {
            account_channel: self.account_channel.clone(),
            aaid: self.aaid.clone(),
            base_currency: self.base_currency.clone(),
        }
    }
}

impl User {
    pub fn get_account_channel(&self) -> (r: &str)
        ensures
            r@ == self.account_channel@,
    {
        self.account_channel.as_str()
    }
}

/// The organisation that an account is held with.
#[derive(Debug, Default)]
pub struct OrgInfo {
    pub name: String,
}

impl Clone for OrgInfo {
    fn clone(&self) -> (r: Self)
        ensures
            r == *self,
    {
        OrgInfo { name: self.name.clone() }
    }
}

#[derive(Debug)]
pub struct Account {
    pub account_channel: String,
    pub aaid: String,
    pub account_name: String,
    pub account_type: String,
    pub org: OrgInfo,
}

impl Clone for Account {
    fn clone(&self) -> (r: Self)
        ensures
            r == *self,
    {
        Account {
            account_channel: self.account_channel.clone(),
            aaid: self.aaid.clone(),
            account_name: self.account_name.clone(),
            account_type: self.account_type.clone(),
            org: self.org.clone(),
        }
    }
}

impl Account {
    /// A cash account at Longbridge under the given display name, with no
    /// channel and no id yet.
    pub fn named(account_name: &str) -> (r: Self)
        ensures
            r.account_channel@.len() == 0,
            r.aaid@.len() == 0,
            r.account_name@ == account_name@,
            r.account_type@ == "CashAccount"@,
            r.org.name@ == "Longbridge"@,
    {
        Account {
            account_channel: String::new(),
            aaid: String::new(),
            account_name: String::from_str(account_name),
            account_type: String::from_str("CashAccount"),
            org: OrgInfo { name: String::from_str("Longbridge") },
        }
    }

    /// Whether the account is open for trading: a margin or a cash account.
    pub fn is_open(&self) -> (r: bool)
        ensures
            r == (self.account_type@ == "MarginAccount"@ || self.account_type@ == "CashAccount"@),
    {
        same_text(self.account_type.as_str(), "MarginAccount") || same_text(
            self.account_type.as_str(),
            "CashAccount",
        )
    }
}

/// The accounts of a user.
#[derive(Debug)]
pub struct AccountList {
    pub status: Vec<Account>,
}

/// The cash of an account in one currency.
#[derive(Debug)]
pub struct CashInfo {
    pub withdraw_cash: Decimal,
    pub available_cash: Decimal,
    pub frozen_cash: Decimal,
    pub settling_cash: Decimal,
    pub currency: String,
}

/// The balance of an account.
#[derive(Debug)]
pub struct AccountBalance {
    pub total_cash: Decimal,
    pub max_finance_amount: Decimal,
    pub remaining_finance_amount: Decimal,
    pub risk_level: u8,
    pub margin_call: Decimal,
    pub currency: String,
    pub net_assets: Decimal,
    pub init_margin: Decimal,
    pub maintenance_margin: Decimal,
    pub buy_power: Decimal,
    pub cash_infos: Vec<CashInfo>,
}

/// A position in one instrument.
#[derive(Debug)]
pub struct Holding {
    pub symbol: String,
    pub name: String,
    pub currency: Currency,
    pub quantity: Decimal,
    pub available_quantity: Decimal,
    pub cost_price: Option<Decimal>,
    pub market_value: Decimal,
    pub market_price: Decimal,
}

/// What a `Holding` holds.
pub struct HoldingView {
    pub symbol: Seq<char>,
    pub name: Seq<char>,
    pub currency: Currency,
    pub quantity: Decimal,
    pub available_quantity: Decimal,
    pub cost_price: Option<Decimal>,
    pub market_value: Decimal,
    pub market_price: Decimal,
}

impl View for Holding {
    type V = HoldingView;

    open spec fn view(&self) -> HoldingView {
        HoldingView {
            symbol: self.symbol@,
            name: self.name@,
            currency: self.currency,
            quantity: self.quantity,
            available_quantity: self.available_quantity,
            cost_price: self.cost_price,
            market_value: self.market_value,
            market_price: self.market_price,
        }
    }
}

impl Default for Holding {
    fn default() -> (r: Self)
        ensures
            r@ == (HoldingView {
                symbol: Seq::empty(),
                name: Seq::empty(),
                currency: Currency::HKD,
                quantity: decimal_of(0),
                available_quantity: decimal_of(0),
                cost_price: None,
                market_value: decimal_of(0),
                market_price: decimal_of(0),
            }),
    {
        let zero = decimal_from_i64(0);
        Holding {
            symbol: String::new(),
            name: String::new(),
            currency: Currency::HKD,
            quantity: zero,
            available_quantity: zero,
            cost_price: None,
            market_value: zero,
            market_price: zero,
        }
    }
}

/// The portfolio at a glance.
#[derive(Debug)]
pub struct OverviewData {
    pub total_asset: Decimal,
    pub market_cap: Decimal,
    pub total_cash: Decimal,
    pub total_pl: Decimal,
    pub total_today_pl: Decimal,
    pub margin_call: Decimal,
    pub risk_level: u8,
    pub credit_limit: Decimal,
    pub leverage_ratio: Decimal,
    pub fund_market_value: Decimal,
    pub currency: String,
}

/// The holdings of one market, added up.
#[derive(Clone, Copy, Debug, PartialEq)]
pub struct MarketAccount {
    pub market: Market,
    pub currency: Currency,
    pub net_assets: Decimal,
    pub market_value: Decimal,
    pub pl: Decimal,
    pub today_pl: Decimal,
    pub balance: Decimal,
    pub frozen_cash: Decimal,
    pub withdraw_cash: Decimal,
    pub max_buy_limit: Decimal,
}

/// The cash in one currency.
#[derive(Clone, Copy, Debug, PartialEq)]
pub struct CashBalance {
    pub currency: Currency,
    pub total_amount: Decimal,
    pub balance: Decimal,
    pub frozen_cash: Decimal,
    pub withdraw_cash: Decimal,
}

/// Everything that the portfolio view shows.
#[derive(Debug)]
pub struct PortfolioView {
    pub overview: OverviewData,
    /// One account for each market that has holdings, in the order in which
    /// the markets first occur among the holdings.
    pub market_accounts: Vec<MarketAccount>,
    pub cash_balances: Vec<CashBalance>,
    pub holdings: Vec<Holding>,
}

} // verus!
