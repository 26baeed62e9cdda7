//! Addresses, coins and dice: data that comes in variants.
use vstd::prelude::*;

verus! {

/// An IPv4 address in its written form.
#[derive(Debug)]
pub struct Ipv4Addr {
    address: String,
}

/// An IPv6 address in its written form.
#[derive(Debug)]
pub struct Ipv6Addr {
    address: String,
}

impl View for Ipv4Addr {
    type V = Seq<char>;

    closed spec fn view(&self) -> Seq<char> {
        self.address@
    }
}

impl View for Ipv6Addr {
    type V = Seq<char>;

    closed spec fn view(&self) -> Seq<char> {
        self.address@
    }
}

impl Ipv4Addr {
    pub fn new(address: String) -> (a: Ipv4Addr)
        ensures
            a@ == address@,
    {
        Ipv4Addr { address }
    }
}

impl Ipv6Addr {
    pub fn new(address: String) -> (a: Ipv6Addr)
        ensures
            a@ == address@,
    {
        Ipv6Addr { address }
    }
}

/// An address of either family.
#[derive(Debug)]
pub enum IpAddr {
    V4(Ipv4Addr),
    V6(Ipv6Addr),
}

#[derive(Clone, Copy, Debug, PartialEq, Eq, Structural)]
pub enum UsState {
    Alabama,
    Alaska,
}

/// A US coin; a quarter carries the state on its back.
#[derive(Clone, Copy, Debug, PartialEq, Eq, Structural)]
pub enum Coin {
    Penny,
    Nickel,
    Dime,
    Quarter(UsState),
}

/// The worth of a coin in cents.
pub open spec fn cents(coin: Coin) -> u8 {
    match coin {
        Coin::Penny => 1,
        Coin::Nickel => 5,
        Coin::Dime => 10,
        Coin::Quarter(_) => 25,
    }
}

pub fn value_in_cents(coin: Coin) -> (r: u8)
    ensures
        r == cents(coin),
{
    match coin {
        Coin::Penny => 1,
        Coin::Nickel => 5,
        Coin::Dime => 10,
        Coin::Quarter(_) => 25,
    }
}

/// One more than the value held, if any; the value must leave room.
pub fn plus_one(x: Option<i32>) -> (r: Option<i32>)
    requires
        x matches Some(i) ==> i < i32::MAX,
    ensures
        x is None ==> r is None,
        x matches Some(i) ==> r == Some((i + 1) as i32),
{
    match x {
        None => None,
        Some(i) => Some(i + 1),
    }
}

/// What a roll of the dice does to the player's hat.
#[derive(Clone, Copy, Debug, PartialEq, Eq, Structural)]
pub enum HatAction {
    AddFancyHat,
    RemoveFancyHat,
    Nothing,
}

/// A three adds a fancy hat, a seven takes it away, anything else does
/// nothing.
pub fn dice_roll(roll: u8) -> (r: HatAction)
    ensures
        roll == 3 ==> r == HatAction::AddFancyHat,
        roll == 7 ==> r == HatAction::RemoveFancyHat,
        roll != 3 && roll != 7 ==> r == HatAction::Nothing,
{
    match roll {
        3 => HatAction::AddFancyHat,
        7 => HatAction::RemoveFancyHat,
        _ => HatAction::Nothing,
    }
}

} // verus!
