//! Tracking how much of a quota is used, and warning through a messenger
//! as the use nears or passes the quota.

use vstd::prelude::*;

verus! {

/// Something that can deliver a text message. Users of `LimitTracker`
/// implement it (by mail, by text, or by recording for a test).
pub trait Messenger {
    fn send(&self, msg: &str);
}

/// How close the use is to the quota, from the mildest warning up.
#[derive(Debug, Clone, Copy, PartialEq, Eq, Structural)]
pub enum QuotaWarning {
    /// At least three quarters of the quota are used.
    Warning,
    /// At least nine tenths of the quota are used.
    Urgent,
    /// The quota is used up or exceeded.
    OverQuota,
}

/// Whether the ratio `value / max` is at least `num / den` (with `den > 0`),
/// taking `value / 0` as infinite when `value > 0` and `0 / 0` as no
/// number at all, which reaches no threshold.
pub open spec fn ratio_at_least(value: nat, max: nat, num: nat, den: nat) -> bool {
    !(value == 0 && max == 0) && value * den >= num * max
}

/// The warning that a use of `value` out of a quota of `max` calls for:
/// over the quota at a ratio of at least 1, urgent at 0.9, a warning at
/// 0.75, and none below.
pub open spec fn warning_for(value: nat, max: nat) -> Option<QuotaWarning> {
    if ratio_at_least(value, max, 1, 1) {
        Some(QuotaWarning::OverQuota)
    } else if ratio_at_least(value, max, 9, 10) {
        Some(QuotaWarning::Urgent)
    } else if ratio_at_least(value, max, 3, 4) {
        Some(QuotaWarning::Warning)
    } else {
        None
    }
}

/// Orders the outcomes of `warning_for` from none (0) up to over the
/// quota (3).
pub open spec fn severity(w: Option<QuotaWarning>) -> int {
    match w {
        None => 0,
        Some(QuotaWarning::Warning) => 1,
        Some(QuotaWarning::Urgent) => 2,
        Some(QuotaWarning::OverQuota) => 3,
    }
}

/// The text sent to the messenger for warning `w`.
pub open spec fn message_text(w: QuotaWarning) -> Seq<char> {
    match w {
        QuotaWarning::OverQuota => "Error: You are over your quota!"@,
        QuotaWarning::Urgent => "Urgent warning: You've used up over 90% of your quota!"@,
        QuotaWarning::Warning => "Warning: You've used up over 75% of your quota!"@,
    }
}

/// The messages sent for the outcome `w` of `warning_for`: the one message
/// of the warning, or none.
pub open spec fn messages_for(w: Option<QuotaWarning>) -> Seq<Seq<char>> {
    match w {
        Some(w) => seq![message_text(w)],
        None => Seq::empty(),
    }
}

impl QuotaWarning {
    /// The text sent to the messenger for this warning.
    pub fn message(&self) -> (r: &'static str)
        ensures
            r@ == message_text(*self),
            *self == QuotaWarning::OverQuota ==> r@ == "Error: You are over your quota!"@,
            *self == QuotaWarning::Urgent ==> r@
                == "Urgent warning: You've used up over 90% of your quota!"@,
            *self == QuotaWarning::Warning ==> r@
                == "Warning: You've used up over 75% of your quota!"@,
    {
        match self {
            QuotaWarning::OverQuota => "Error: You are over your quota!",
            QuotaWarning::Urgent => "Urgent warning: You've used up over 90% of your quota!",
            QuotaWarning::Warning => "Warning: You've used up over 75% of your quota!",
        }
    }
}

/// Whether `value / max` reaches `num / den`, computed without overflow.
fn reaches(value: usize, max: usize, num: u8, den: u8) -> (b: bool)
    requires
        den > 0,
    ensures
        b == ratio_at_least(value as nat, max as nat, num as nat, den as nat),
{
    if value == 0 && max == 0 {
        false
    } else {
        let v: u128 = value as u128;
        let m: u128 = max as u128;
        let n: u128 = num as u128;
        let d: u128 = den as u128;
        assert(v * d <= 0xffff_ffff_ffff_ffff * 255) by (nonlinear_arith)
            requires
                v <= 0xffff_ffff_ffff_ffff,
                d <= 255,
        ;
        assert(n * m <= 255 * 0xffff_ffff_ffff_ffff) by (nonlinear_arith)
            requires
                m <= 0xffff_ffff_ffff_ffff,
                n <= 255,
        ;
        v * d >= n * m
    }
}

/// The warning, if any, for a use of `value` out of a quota of `max`.
pub fn quota_warning(value: usize, max: usize) -> (w: Option<QuotaWarning>)
    ensures
        w == warning_for(value as nat, max as nat),
{
    if reaches(value, max, 1, 1) {
        Some(QuotaWarning::OverQuota)
    } else if reaches(value, max, 9, 10) {
        Some(QuotaWarning::Urgent)
    } else if reaches(value, max, 3, 4) {
        Some(QuotaWarning::Warning)
    } else {
        None
    }
}

/// Keeps the current use against a fixed quota and tells the messenger
/// when a new use comes near the quota or passes it.
pub struct LimitTracker<'a, T: Messenger> {
    messenger: &'a T,
    value: usize,
    max: usize,
    sent: Ghost<Seq<Seq<char>>>,
}

impl<'a, T> LimitTracker<'a, T> where T: Messenger {
    /// The use last set.
    pub closed spec fn current(&self) -> usize {
        self.value
    }

    /// The quota.
    pub closed spec fn quota(&self) -> usize {
        self.max
    }

    /// The messenger that warnings go to.
    pub closed spec fn messenger(&self) -> &'a T {
        self.messenger
    }

    /// The texts this tracker has handed to its messenger, oldest first.
    pub closed spec fn sent_messages(&self) -> Seq<Seq<char>> {
        self.sent@
    }

    /// Hands `msg` to the messenger and records it as sent.
    fn notify(&mut self, msg: &str)
        ensures
            final(self).sent_messages() == old(self).sent_messages().push(msg@),
            final(self).current() == old(self).current(),
            final(self).quota() == old(self).quota(),
            final(self).messenger() == old(self).messenger(),
    {
        self.messenger.send(msg);
        proof {
            self.sent@ = self.sent@.push(msg@);
        }
    }

    /// A tracker with a quota of `max` and no use yet.
    pub fn new(messenger: &'a T, max: usize) -> (t: LimitTracker<'a, T>)
        ensures
            t.current() == 0,
            t.quota() == max,
            t.messenger() == messenger,
            t.sent_messages() == Seq::<Seq<char>>::empty(),
    {
        LimitTracker { messenger, value: 0, max, sent: Ghost(Seq::empty()) }
    }

    /// Records a new use of `value` and, where `quota_warning(value, max)`
    /// calls for a warning, sends its message to the messenger once.
    pub fn set_value(&mut self, value: usize)
        ensures
            final(self).current() == value,
            final(self).quota() == old(self).quota(),
            final(self).messenger() == old(self).messenger(),
            final(self).sent_messages() == old(self).sent_messages() + messages_for(
                warning_for(value as nat, old(self).quota() as nat),
            ),
    {
        self.value = value;
        let ghost before = self.sent@;
        match quota_warning(self.value, self.max) {
            Some(w) => self.notify(w.message()),
            None => {},
        }
        assert(self.sent@ =~= before + messages_for(warning_for(value as nat, self.max as nat)));
    }
}

/// What one `set_value(v)` on a tracker with quota `m` sends, in terms of
/// the ratio `v / m`: nothing below three quarters (or for `0 / 0`), the
/// 75% warning from three quarters up to under nine tenths, the 90% warning
/// from nine tenths up to under the whole quota, and the error from the
/// whole quota on (always, when `m` is 0 and `v` is not).
pub proof fn lemma_set_value_messages(v: nat, m: nat)
    ensures
        (v == 0 && m == 0) || 4 * v < 3 * m ==> messages_for(warning_for(v, m)) =~= Seq::<
            Seq<char>,
        >::empty(),
        !(v == 0 && m == 0) && v >= m ==> messages_for(warning_for(v, m)) =~= seq![
            "Error: You are over your quota!"@,
        ],
        v < m && 10 * v >= 9 * m ==> messages_for(warning_for(v, m)) =~= seq![
            "Urgent warning: You've used up over 90% of your quota!"@,
        ],
        10 * v < 9 * m && 4 * v >= 3 * m ==> messages_for(warning_for(v, m)) =~= seq![
            "Warning: You've used up over 75% of your quota!"@,
        ],
        messages_for(warning_for(v, m)).len() <= 1,
{
}

/// The warning never gets milder as the use grows against the same quota.
pub proof fn lemma_warning_monotone(v1: nat, v2: nat, max: nat)
    requires
        v1 <= v2,
    ensures
        severity(warning_for(v1, max)) <= severity(warning_for(v2, max)),
{
    assert(v1 * 1 <= v2 * 1);
    assert(v1 * 10 <= v2 * 10);
    assert(v1 * 4 <= v2 * 4);
}

/// Only the ratio of use to quota matters: scaling both by the same
/// positive factor gives the same warning.
pub proof fn lemma_warning_scale(value: nat, max: nat, k: nat)
    requires
        k > 0,
    ensures
        warning_for(k * value, k * max) == warning_for(value, max),
{
    assert forall|num: nat, den: nat| #![trigger ratio_at_least(k * value, k * max, num, den)]
        ratio_at_least(k * value, k * max, num, den) == ratio_at_least(value, max, num, den) by {
        assert((k * value) * den == k * (value * den)) by (nonlinear_arith);
        assert(num * (k * max) == k * (num * max)) by (nonlinear_arith);
        assert((k * value == 0) == (value == 0)) by (nonlinear_arith)
            requires
                k > 0,
        ;
        assert((k * max == 0) == (max == 0)) by (nonlinear_arith)
            requires
                k > 0,
        ;
        assert(k * (value * den) >= k * (num * max) <==> value * den >= num * max)
            by (nonlinear_arith)
            requires
                k > 0,
        ;
    }
}

} // verus!
