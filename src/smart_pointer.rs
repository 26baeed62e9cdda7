//! Recursive lists behind `Box` and `Rc`, a box of one's own, and a tracker
//! that warns through a messenger as a value nears its limit.
use std::cell::RefCell;
use std::rc::Rc;
use vstd::prelude::*;

verus! {

#[verifier::external_type_specification]
#[verifier::external_body]
#[verifier::reject_recursive_types(T)]
pub struct ExRefCell<T: ?Sized>(RefCell<T>);

/// Relies on `RefCell::new`, which wraps the value it is given.
pub assume_specification<T>[ RefCell::<T>::new ](value: T) -> (r: RefCell<T>);

/// A list of integers, each cell owning the rest.
#[derive(Debug)]
pub enum List {
    Cons(i32, Box<List>),
    Nil,
}

/// A list whose tails can be shared.
#[derive(Debug)]
pub enum ListV2 {
    Cons(i32, Rc<ListV2>),
    Nil,
}

/// A box of one's own: it holds one value.
pub struct MyBox<T>(T);

impl<T> View for MyBox<T> {
    type V = T;

    closed spec fn view(&self) -> T {
        self.0
    }
}

impl<T> MyBox<T> {
    pub fn new(x: T) -> (b: MyBox<T>)
        ensures
            b@ == x,
    {
        MyBox(x)
    }
}

impl<T> std::ops::Deref for MyBox<T> {
    type Target = T;

    fn deref(&self) -> &T {
        &self.0
    }
}

/// A value with a label; dropping it is what it was made to show.
pub struct CustomSmartPointer {
    pub data: String,
}

/// Something that delivers messages.
pub trait Messenger {
    fn send(&self, msg: &str);
}

/// A messenger that keeps what it was sent.
pub struct SomeMessenger {
    pub values: RefCell<Vec<String>>,
}

impl SomeMessenger {
    pub fn new() -> SomeMessenger {
        SomeMessenger { values: RefCell::new(Vec::new()) }
    }
}

/// Relies on `RefCell::try_borrow_mut`, which fails rather than panics while
/// the cell is borrowed elsewhere. On success the message is pushed onto the
/// vector the cell holds and `true` comes back; otherwise nothing changes and
/// `false` comes back. The vector lives behind a shared reference, so no
/// contract can speak of it.
#[verifier::external_body]
fn try_push_message(cell: &RefCell<Vec<String>>, msg: String) -> bool {
    match cell.try_borrow_mut() {
        Ok(mut messages) => {
            messages.push(msg);
            true
        },
        Err(_) => false,
    }
}

impl Messenger for SomeMessenger {
    /// Records `msg`. A message sent while someone holds a borrow of
    /// `values` is not recorded.
    fn send(&self, msg: &str) {
        let _recorded = try_push_message(&self.values, String::from_str(msg));
    }
}

/// How close a value has come to its limit.
#[derive(Clone, Copy, Debug, PartialEq, Eq, Structural)]
pub enum QuotaAlert {
    /// At or past the limit.
    OverQuota,
    /// At 90% of the limit or more.
    Urgent,
    /// At 75% of the limit or more.
    Warning,
}

/// The alert due when `value` is measured against `max`, judged by the
/// fraction `value / max`. A limit of zero is exceeded by any positive value,
/// and zero against zero is no fraction at all, so no alert.
pub open spec fn alert_for(value: nat, max: nat) -> Option<QuotaAlert> {
    if max == 0 {
        if value > 0 {
            Some(QuotaAlert::OverQuota)
        } else {
            None
        }
    } else if value >= max {
        Some(QuotaAlert::OverQuota)
    } else if 10 * value >= 9 * max {
        Some(QuotaAlert::Urgent)
    } else if 4 * value >= 3 * max {
        Some(QuotaAlert::Warning)
    } else {
        None
    }
}

pub fn quota_alert(value: usize, max: usize) -> (r: Option<QuotaAlert>)
    ensures
        r == alert_for(value as nat, max as nat),
{
    let v = value as u128;
    let m = max as u128;
    if max == 0 {
        if value > 0 {
            Some(QuotaAlert::OverQuota)
        } else {
            None
        }
    } else if value >= max {
        Some(QuotaAlert::OverQuota)
    } else if 10 * v >= 9 * m {
        Some(QuotaAlert::Urgent)
    } else if 4 * v >= 3 * m {
        Some(QuotaAlert::Warning)
    } else {
        None
    }
}

impl QuotaAlert {
    /// The text sent for this alert.
    pub fn message(&self) -> (r: &'static str)
        ensures
            *self == QuotaAlert::OverQuota ==> r@ == "Error: You are over your quota!"@,
            *self == QuotaAlert::Urgent ==> r@
                == "Urgent warning: You've used up over 90% of your quota!"@,
            *self == QuotaAlert::Warning ==> r@ == "Warning: You've used up over 75% of your quota!"@,
    {
        match self {
            QuotaAlert::OverQuota => "Error: You are over your quota!",
            QuotaAlert::Urgent => "Urgent warning: You've used up over 90% of your quota!",
            QuotaAlert::Warning => "Warning: You've used up over 75% of your quota!",
        }
    }
}

/// Tracks a value against a limit and warns through a messenger.
pub struct LimitTracker<'a, T: 'a + Messenger> {
    messenger: &'a T,
    value: usize,
    max: usize,
}

impl<'a, T: Messenger> LimitTracker<'a, T> {
    /// The tracked value.
    pub closed spec fn current(&self) -> usize {
        self.value
    }

    /// The limit.
    pub closed spec fn limit(&self) -> usize {
        self.max
    }

    /// The messenger alerts go to.
    pub closed spec fn target(&self) -> &'a T {
        self.messenger
    }

    /// A tracker at zero against the limit `max`.
    pub fn new(messenger: &'a T, max: usize) -> (t: LimitTracker<'a, T>)
        ensures
            t.current() == 0,
            t.limit() == max,
            t.target() == messenger,
    {
        LimitTracker { messenger, value: 0, max }
    }

    /// Records `value` and sends the messenger the alert it calls for,
    /// `alert_for(value, limit)`, if any.
    pub fn set_value(&mut self, value: usize)
        ensures
            final(self).current() == value,
            final(self).limit() == old(self).limit(),
            final(self).target() == old(self).target(),
    {
        self.value = value;
        match quota_alert(self.value, self.max) {
            Some(alert) => self.messenger.send(alert.message()),
            None => {},
        }
    }
}

} // verus!
