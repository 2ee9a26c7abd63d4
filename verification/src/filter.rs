//! Filters that decide by source and destination address whether a packet may enter the stack.

use crate::addr::IpAddr;
use vstd::prelude::*;

verus! {

/// A rule on the source and destination address of a packet.
///
/// A rule may keep state of its own behind `&self`, so its answer is described by a relation:
/// [`AddressFilter::answers`] holds of each answer that it may give.
pub trait AddressFilter: Send + Sync {
    /// Whether the rule can be asked about these two addresses.
    spec fn accepts(&self, src: IpAddr, dst: IpAddr) -> bool;

    /// Whether `verdict` is an answer that the rule may give about these two addresses.
    spec fn answers(&self, src: IpAddr, dst: IpAddr, verdict: bool) -> bool;

    /// Whether a packet from `src` to `dst` may pass.
    fn allows(&self, src: &IpAddr, dst: &IpAddr) -> (verdict: bool)
        requires
            self.accepts(*src, *dst),
        ensures
            self.answers(*src, *dst, verdict),
    ;
}

/// Every predicate on two addresses is a rule.
impl<F: Fn(&IpAddr, &IpAddr) -> bool + Send + Sync> AddressFilter for F {
    open spec fn accepts(&self, src: IpAddr, dst: IpAddr) -> bool {
        call_requires(*self, (&src, &dst))
    }

    open spec fn answers(&self, src: IpAddr, dst: IpAddr, verdict: bool) -> bool {
        call_ensures(*self, (&src, &dst), verdict)
    }

    fn allows(&self, src: &IpAddr, dst: &IpAddr) -> (verdict: bool) {
        self(src, dst)
    }
}

/// The rule that lets a packet pass when both of its addresses are unicast.
pub struct NonBroadcast;

impl AddressFilter for NonBroadcast {
    open spec fn accepts(&self, src: IpAddr, dst: IpAddr) -> bool {
        true
    }

    open spec fn answers(&self, src: IpAddr, dst: IpAddr, verdict: bool) -> bool {
        verdict == (src.unicast() && dst.unicast())
    }

    fn allows(&self, src: &IpAddr, dst: &IpAddr) -> (verdict: bool) {
        src.is_unicast() && dst.is_unicast()
    }
}

/// A rule of any type.
pub struct IpFilter<'a> {
    rule: Box<dyn AddressFilter + 'a>,
}

impl<'a> IpFilter<'a> {
    /// Whether the rule can be asked about these two addresses.
    pub closed spec fn accepts(self, src: IpAddr, dst: IpAddr) -> bool {
        self.rule.accepts(src, dst)
    }

    /// Whether `verdict` is an answer that the rule may give about these two addresses.
    pub closed spec fn answers(self, src: IpAddr, dst: IpAddr, verdict: bool) -> bool {
        self.rule.answers(src, dst, verdict)
    }

    /// Whether the rule can be asked about all addresses.
    pub open spec fn total(self) -> bool {
        forall|src: IpAddr, dst: IpAddr| #[trigger] self.accepts(src, dst)
    }

    /// Whether the two rules can be asked the same and may answer the same.
    pub open spec fn behaves_as<T: AddressFilter>(self, rule: T) -> bool {
        &&& forall|src: IpAddr, dst: IpAddr| #[trigger]
            self.accepts(src, dst) <==> rule.accepts(src, dst)
        &&& forall|src: IpAddr, dst: IpAddr, verdict: bool| #[trigger]
            self.answers(src, dst, verdict) <==> rule.answers(src, dst, verdict)
    }

    /// The rule with its type forgotten.
    pub fn new<T: AddressFilter + 'a>(rule: T) -> (filter: Self)
        ensures
            filter.behaves_as(rule),
    {
        IpFilter { rule: Box::new(rule) }
    }

    /// Whether a packet from `src` to `dst` may pass.
    pub fn allows(&self, src: &IpAddr, dst: &IpAddr) -> (verdict: bool)
        requires
            self.accepts(*src, *dst),
        ensures
            self.answers(*src, *dst, verdict),
    {
        self.rule.allows(src, dst)
    }
}

/// Whether rule `k` may refuse the packet after all the rules before it may let it pass.
pub open spec fn refused_first_by(
    rules: Seq<IpFilter<'_>>,
    src: IpAddr,
    dst: IpAddr,
    k: int,
) -> bool {
    &&& 0 <= k < rules.len()
    &&& rules[k].answers(src, dst, false)
    &&& forall|i: int| 0 <= i < k ==> #[trigger] rules[i].answers(src, dst, true)
}

/// Whether the rules together may come to `verdict`: all of them let the packet pass, or the
/// first that does not refuses it.
pub open spec fn may_decide(
    rules: Seq<IpFilter<'_>>,
    src: IpAddr,
    dst: IpAddr,
    verdict: bool,
) -> bool {
    if verdict {
        forall|i: int| 0 <= i < rules.len() ==> #[trigger] rules[i].answers(src, dst, true)
    } else {
        exists|k: int| #[trigger] refused_first_by(rules, src, dst, k)
    }
}

/// Whether a predicate can be called on all addresses.
pub open spec fn takes_all<F: Fn(&IpAddr, &IpAddr) -> bool>(predicate: F) -> bool {
    forall|src: IpAddr, dst: IpAddr| #[trigger] call_requires(predicate, (&src, &dst))
}

/// Whether every rule can be asked about all addresses.
pub open spec fn all_total(rules: Seq<IpFilter<'_>>) -> bool {
    forall|i: int| 0 <= i < rules.len() ==> (#[trigger] rules[i]).total()
}

/// Whether every rule can be asked about these two addresses.
pub open spec fn all_accept(rules: Seq<IpFilter<'_>>, src: IpAddr, dst: IpAddr) -> bool {
    forall|i: int| 0 <= i < rules.len() ==> (#[trigger] rules[i]).accepts(src, dst)
}

/// A list of rules, all of which must let a packet pass.
pub struct IpFilters<'a> {
    filters: Vec<IpFilter<'a>>,
}

impl<'a> View for IpFilters<'a> {
    type V = Seq<IpFilter<'a>>;

    closed spec fn view(&self) -> Seq<IpFilter<'a>> {
        self.filters@
    }
}

impl<'a> IpFilters<'a> {
    /// The list of these rules, asked in their order.
    pub fn new(filters: Vec<IpFilter<'a>>) -> (list: Self)
        ensures
            list@ == filters@,
    {
        IpFilters { filters }
    }

    /// The list that holds the rule [`NonBroadcast`] alone.
    pub fn with_non_broadcast() -> (list: Self)
        ensures
            list@.len() == 1,
            list@[0].behaves_as(NonBroadcast),
            all_total(list@),
    {
        let mut filters: Vec<IpFilter<'a>> = Vec::new();
        filters.push(IpFilter::new(NonBroadcast));
        IpFilters { filters }
    }

    /// Adds a rule at the end of the list.
    pub fn add(&mut self, filter: IpFilter<'a>)
        ensures
            final(self)@ == old(self)@.push(filter),
    {
        self.filters.push(filter);
    }

    /// Adds a predicate as a rule at the end of the list.
    pub fn add_fn<F>(&mut self, filter: F) where
        F: Fn(&IpAddr, &IpAddr) -> bool + Send + Sync + 'a,

        ensures
            final(self)@.len() == old(self)@.len() + 1,
            final(self)@.drop_last() == old(self)@,
            final(self)@.last().behaves_as(filter),
            all_total(old(self)@) && takes_all(filter) ==> all_total(final(self)@),
    {
        self.filters.push(IpFilter::new(filter));
        assert(self@.drop_last() =~= old(self)@);
        proof {
            if all_total(old(self)@) && takes_all(filter) {
                assert forall|i: int| 0 <= i < self@.len() implies (
                #[trigger] self@[i]).total() by {
                    if i < old(self)@.len() {
                        assert(old(self)@[i].total());
                    } else {
                        assert forall|src: IpAddr, dst: IpAddr| #[trigger]
                            self@[i].accepts(src, dst) by {
                            assert(filter.accepts(src, dst));
                        }
                    }
                }
            }
        }
    }

    /// Whether every rule lets a packet from `src` to `dst` pass. The rules are asked in order,
    /// up to the first refusal.
    pub fn is_allowed(&self, src: &IpAddr, dst: &IpAddr) -> (verdict: bool)
        requires
            all_accept(self@, *src, *dst),
        ensures
            may_decide(self@, *src, *dst, verdict),
            verdict ==> forall|i: int|
                0 <= i < self@.len() ==> #[trigger] self@[i].answers(*src, *dst, true),
            !verdict ==> exists|k: int|
                0 <= k < self@.len() && #[trigger] self@[k].answers(*src, *dst, false) && forall|
                    i: int,
                |
                    0 <= i < k ==> #[trigger] self@[i].answers(*src, *dst, true),
    {
        let mut next: usize = 0;
        while next < self.filters.len()
            invariant
                all_accept(self@, *src, *dst),
                next <= self@.len(),
                forall|i: int| 0 <= i < next ==> #[trigger] self@[i].answers(*src, *dst, true),
            decreases self@.len() - next,
        {
            assert(self@[next as int].accepts(*src, *dst));
            if !self.filters[next].allows(src, dst) {
                assert(refused_first_by(self@, *src, *dst, next as int));
                return false;
            }
            next += 1;
        }
        true
    }
}

/// An empty list lets every packet pass.
pub proof fn law_no_rule_allows_all(src: IpAddr, dst: IpAddr, verdict: bool)
    ensures
        may_decide(Seq::empty(), src, dst, verdict) <==> verdict,
{
}

/// A list that holds the rule [`NonBroadcast`] alone lets exactly the packets pass that go from
/// one unicast address to another.
pub proof fn law_non_broadcast_alone(
    rules: Seq<IpFilter<'_>>,
    src: IpAddr,
    dst: IpAddr,
    verdict: bool,
)
    requires
        rules.len() == 1,
        rules[0].behaves_as(NonBroadcast),
    ensures
        may_decide(rules, src, dst, verdict) <==> verdict == (src.unicast() && dst.unicast()),
{
    assert(rules[0].answers(src, dst, verdict) <==> NonBroadcast.answers(src, dst, verdict));
    assert(refused_first_by(rules, src, dst, 0) <==> rules[0].answers(src, dst, false));
}

/// One more rule at the end of a list only narrows it, and by no more than the rule itself: the
/// longer list lets pass what the shorter list and the new rule both let pass, and refuses what
/// the shorter list refuses or, where that lets it pass, the new rule refuses.
pub proof fn law_added_rule_narrows(
    rules: Seq<IpFilter<'_>>,
    rule: IpFilter<'_>,
    src: IpAddr,
    dst: IpAddr,
)
    ensures
        may_decide(rules.push(rule), src, dst, true) <==> may_decide(rules, src, dst, true)
            && rule.answers(src, dst, true),
        may_decide(rules, src, dst, false) ==> may_decide(rules.push(rule), src, dst, false),
        may_decide(rules.push(rule), src, dst, false) <==> may_decide(rules, src, dst, false) || (
        may_decide(rules, src, dst, true) && rule.answers(src, dst, false)),
{
    let longer = rules.push(rule);
    if may_decide(longer, src, dst, true) {
        assert forall|i: int| 0 <= i < rules.len() implies #[trigger] rules[i].answers(
            src,
            dst,
            true,
        ) by {
            assert(longer[i].answers(src, dst, true));
        }
        assert(longer[rules.len() as int].answers(src, dst, true));
    }
    if may_decide(rules, src, dst, false) {
        let k = choose|k: int| #[trigger] refused_first_by(rules, src, dst, k);
        assert forall|i: int| 0 <= i < k implies #[trigger] longer[i].answers(src, dst, true) by {
            assert(rules[i].answers(src, dst, true));
        }
        assert(refused_first_by(longer, src, dst, k));
    }
    if may_decide(longer, src, dst, false) {
        let k = choose|k: int| #[trigger] refused_first_by(longer, src, dst, k);
        assert forall|i: int| 0 <= i < k implies #[trigger] rules[i].answers(src, dst, true) by {
            assert(longer[i].answers(src, dst, true));
        }
        if k < rules.len() {
            assert(refused_first_by(rules, src, dst, k));
        }
    }
    if may_decide(rules, src, dst, true) && rule.answers(src, dst, false) {
        let k = rules.len() as int;
        assert forall|i: int| 0 <= i < k implies #[trigger] longer[i].answers(src, dst, true) by {
            assert(rules[i].answers(src, dst, true));
        }
        assert(refused_first_by(longer, src, dst, k));
    }
}

/// A list refuses a packet only where a rule in it refuses the packet, after every rule before
/// that one has let it pass. So a list of rules none of which refuses the packet lets it pass,
/// however long the list is.
pub proof fn law_refusal_has_a_refuser(rules: Seq<IpFilter<'_>>, src: IpAddr, dst: IpAddr)
    ensures
        may_decide(rules, src, dst, false) <==> exists|k: int|
            0 <= k < rules.len() && #[trigger] rules[k].answers(src, dst, false) && forall|i: int|
                0 <= i < k ==> #[trigger] rules[i].answers(src, dst, true),
        (forall|i: int| 0 <= i < rules.len() ==> !#[trigger] rules[i].answers(src, dst, false))
            ==> !may_decide(rules, src, dst, false),
{
    if exists|k: int|
        0 <= k < rules.len() && #[trigger] rules[k].answers(src, dst, false) && forall|i: int|
            0 <= i < k ==> #[trigger] rules[i].answers(src, dst, true) {
        let k = choose|k: int|
            0 <= k < rules.len() && #[trigger] rules[k].answers(src, dst, false) && forall|i: int|
                0 <= i < k ==> #[trigger] rules[i].answers(src, dst, true);
        assert(refused_first_by(rules, src, dst, k));
    }
}

/// A list lets a packet pass exactly where each of its rules, whichever it is, lets it pass. One
/// rule that only refuses the packet is enough to keep it out.
pub proof fn law_pass_needs_every_rule(
    rules: Seq<IpFilter<'_>>,
    src: IpAddr,
    dst: IpAddr,
    k: int,
)
    requires
        0 <= k < rules.len(),
    ensures
        may_decide(rules, src, dst, true) ==> rules[k].answers(src, dst, true),
        !rules[k].answers(src, dst, true) ==> !may_decide(rules, src, dst, true),
        (forall|i: int| 0 <= i < rules.len() ==> #[trigger] rules[i].answers(src, dst, true))
            ==> may_decide(rules, src, dst, true),
{
}

/// Where every rule has an answer, the list comes to a verdict. Where every rule has but one
/// answer, the list comes to but one verdict.
pub proof fn law_list_decides(rules: Seq<IpFilter<'_>>, src: IpAddr, dst: IpAddr)
    ensures
        (forall|i: int|
            #![trigger rules[i]]
            0 <= i < rules.len() ==> rules[i].answers(src, dst, true) || rules[i].answers(
                src,
                dst,
                false,
            )) ==> may_decide(rules, src, dst, true) || may_decide(rules, src, dst, false),
        (forall|i: int|
            #![trigger rules[i]]
            0 <= i < rules.len() ==> !(rules[i].answers(src, dst, true) && rules[i].answers(
                src,
                dst,
                false,
            ))) ==> !(may_decide(rules, src, dst, true) && may_decide(rules, src, dst, false)),
    decreases rules.len(),
{
    if rules.len() > 0 {
        let shorter = rules.drop_last();
        let rule = rules.last();
        assert(shorter.push(rule) =~= rules);
        law_list_decides(shorter, src, dst);
        law_added_rule_narrows(shorter, rule, src, dst);
        assert(rules[rules.len() - 1] == rule);
        assert forall|i: int| 0 <= i < shorter.len() implies #[trigger] shorter[i] == rules[i] by {}
    }
}

/// A predicate is a rule that may answer what a call of the predicate may return, and can be
/// asked where the predicate can be called.
pub proof fn law_predicate_is_its_own_rule<F>(
    predicate: F,
    src: IpAddr,
    dst: IpAddr,
    verdict: bool,
) where F: Fn(&IpAddr, &IpAddr) -> bool + Send + Sync
    ensures
        predicate.answers(src, dst, verdict) <==> call_ensures(predicate, (&src, &dst), verdict),
        predicate.accepts(src, dst) <==> call_requires(predicate, (&src, &dst)),
        takes_all(predicate) <==> forall|from: IpAddr, to: IpAddr| #[trigger]
            call_requires(predicate, (&from, &to)),
{
}

/// The rule [`NonBroadcast`] has one answer about any two addresses: it lets a packet pass
/// exactly where both are unicast.
pub proof fn law_non_broadcast(src: IpAddr, dst: IpAddr)
    ensures
        NonBroadcast.accepts(src, dst),
        NonBroadcast.answers(src, dst, true) <==> src.unicast() && dst.unicast(),
        NonBroadcast.answers(src, dst, false) <==> !src.unicast() || !dst.unicast(),
{
}

/// A rule with its type forgotten is asked and answers as the rule itself.
pub proof fn law_forgotten_type_answers_alike<T: AddressFilter>(
    filter: IpFilter<'_>,
    rule: T,
    src: IpAddr,
    dst: IpAddr,
    verdict: bool,
)
    requires
        filter.behaves_as(rule),
    ensures
        filter.answers(src, dst, verdict) <==> rule.answers(src, dst, verdict),
        filter.accepts(src, dst) <==> rule.accepts(src, dst),
{
}

/// Rules that can each be asked about two addresses can be asked together. Rules that can each be
/// asked about all addresses can be asked together about any two.
pub proof fn law_rules_asked_together(rules: Seq<IpFilter<'_>>, src: IpAddr, dst: IpAddr)
    ensures
        all_accept(rules, src, dst) <==> forall|i: int|
            0 <= i < rules.len() ==> #[trigger] rules[i].accepts(src, dst),
        all_total(rules) ==> all_accept(rules, src, dst),
        all_total(rules) <==> forall|i: int, from: IpAddr, to: IpAddr|
            0 <= i < rules.len() ==> #[trigger] rules[i].accepts(from, to),
{
    if forall|i: int, from: IpAddr, to: IpAddr|
        0 <= i < rules.len() ==> #[trigger] rules[i].accepts(from, to) {
        assert forall|i: int| 0 <= i < rules.len() implies (#[trigger] rules[i]).total() by {}
    }
    if all_total(rules) {
        assert forall|i: int, from: IpAddr, to: IpAddr|
            0 <= i < rules.len() implies #[trigger] rules[i].accepts(from, to) by {
            assert(rules[i].total());
        }
    }
}

} // verus!
