//! The caster's audience: receivers join and leave by message, and are
//! known by their "address:port" text.

use vstd::prelude::*;
use vstd::string::*;
use crate::socket::codec::{Action, RegistrationMessage};

verus! {

/// The character of decimal digit `d`.
pub open spec fn digit_char(d: int) -> char {
    (48 + d) as char
}

/// Decimal text of `n`, without leading zeros.
pub open spec fn decimal(n: nat) -> Seq<char>
    decreases n,
{
    if n < 10 {
        seq![digit_char(n as int)]
    } else {
        decimal(n / 10).push(digit_char((n % 10) as int))
    }
}

/// Text under which a receiver is known: its address, a colon, its port.
pub open spec fn endpoint(ip: Seq<char>, port: u16) -> Seq<char> {
    ip + seq![':'] + decimal(port as nat)
}

/// `format!("{}:{}", ip, port)`. The contract claims the address text, a
/// colon, and the port in decimal without leading zeros, which is how std
/// displays integers.
#[verifier::external_body]
pub(crate) fn endpoint_text(ip: &str, port: u16) -> (text: String)
    ensures
        text@ == endpoint(ip@, port),
{
    format!("{}:{}", ip, port)
}

/// The port a caster listens on.
pub const CASTER_PORT: u16 = 7879;

/// The port a receiver listens on.
pub const RECEIVER_PORT: u16 = 7880;

/// The address a caster at `local_ip` binds its socket to: that address
/// with the caster's port.
pub fn caster_endpoint(local_ip: &str) -> (a: String)
    ensures
        a@ == endpoint(local_ip@, CASTER_PORT),
{
    endpoint_text(local_ip, CASTER_PORT)
}

/// The two addresses of a receiver at `local_ip` that connects to the
/// caster at `caster_ip`: the one it binds its socket to (its address with
/// the receiver's port), and the one it registers with and receives from
/// (the caster's address with the caster's port).
pub fn receiver_endpoints(local_ip: &str, caster_ip: &str) -> (r: (String, String))
    ensures
        r.0@ == endpoint(local_ip@, RECEIVER_PORT),
        r.1@ == endpoint(caster_ip@, CASTER_PORT),
{
    (endpoint_text(local_ip, RECEIVER_PORT), endpoint_text(caster_ip, CASTER_PORT))
}

/// `list` with every entry equal to `e` taken out, the others in order.
pub open spec fn without(list: Seq<Seq<char>>, e: Seq<char>) -> Seq<Seq<char>> {
    list.filter(|a: Seq<char>| a != e)
}

/// The audience after `action` by the receiver known as `e`: a join adds
/// it at the end, a departure takes out every entry with its text.
pub open spec fn audience_after(list: Seq<Seq<char>>, e: Seq<char>, action: Action) -> Seq<Seq<char>> {
    match action {
        Action::Register => list.push(e),
        Action::Disconnect => without(list, e),
    }
}

/// The receivers that frames are sent to, in joining order.
pub struct ReceiverRegistry {
    receivers: Vec<String>,
}

impl View for ReceiverRegistry {
    type V = Seq<Seq<char>>;

    closed spec fn view(&self) -> Seq<Seq<char>> {
        self.receivers@.map_values(|s: String| s@)
    }
}

impl ReceiverRegistry {
    pub fn new() -> (r: Self)
        ensures
            r@ == Seq::<Seq<char>>::empty(),
    {
        let r = ReceiverRegistry { receivers: Vec::new() };
        assert(r@ =~= Seq::<Seq<char>>::empty());
        r
    }

    /// Number of receivers.
    pub fn len(&self) -> (n: usize)
        ensures
            n == self@.len(),
    {
        self.receivers.len()
    }

    /// Text of receiver `i`.
    pub fn address(&self, i: usize) -> (a: &String)
        requires
            i < self@.len(),
        ensures
            a@ == self@[i as int],
    {
        &self.receivers[i]
    }

    fn remove_endpoint(&mut self, e: &String)
        ensures
            final(self)@ == without(old(self)@, e@),
    {
        let ghost old_list = self@;
        let ghost pred = |a: Seq<char>| a != e@;
        let mut kept: Vec<String> = Vec::new();
        let n = self.receivers.len();
        let mut i: usize = 0;
        while i < n
            invariant
                n == old_list.len(),
                self@ == old_list,
                pred == (|a: Seq<char>| a != e@),
                i <= n,
                kept@.map_values(|s: String| s@) == old_list.take(i as int).filter(pred),
            decreases n - i,
        {
            proof {
                reveal_with_fuel(Seq::<_>::filter, 1);
                assert(old_list.take(i + 1).drop_last() =~= old_list.take(i as int));
                assert(old_list.take(i + 1).last() == old_list[i as int]);
            }
            let keep = !(self.receivers[i] == *e);
            if keep {
                let a = self.receivers[i].clone();
                let ghost before = kept@;
                kept.push(a);
                assert(kept@.map_values(|s: String| s@) =~= before.map_values(|s: String| s@).push(old_list[i as int]));
            }
            i = i + 1;
        }
        assert(old_list.take(n as int) =~= old_list);
        self.receivers = kept;
    }

    /// Applies a receiver's message and gives the new number of receivers.
    pub fn apply(&mut self, message: &RegistrationMessage) -> (count: usize)
        requires
            old(self)@.len() < usize::MAX,
        ensures
            final(self)@ == audience_after(old(self)@, endpoint(message.ip@, message.port), message.action),
            count == final(self)@.len(),
    {
        let e = endpoint_text(message.ip.as_str(), message.port);
        match message.action {
            Action::Register => {
                let ghost before = self@;
                self.receivers.push(e);
                assert(self@ =~= before.push(endpoint(message.ip@, message.port)));
            },
            Action::Disconnect => {
                self.remove_endpoint(&e);
            },
        }
        proof {
            broadcast use vstd::seq_lib::group_filter_ensures;
        }
        self.receivers.len()
    }
}

/// After a receiver leaves, no entry with its text is left, and every other
/// entry stays.
pub proof fn lemma_departure_removes(list: Seq<Seq<char>>, e: Seq<char>)
    ensures
        !audience_after(list, e, Action::Disconnect).contains(e),
        forall|a: Seq<char>| a != e && list.contains(a) ==> #[trigger] audience_after(list, e, Action::Disconnect).contains(a),
{
    broadcast use vstd::seq_lib::group_filter_ensures;
    let out = without(list, e);
    if out.contains(e) {
        let k = choose|k: int| 0 <= k < out.len() && out[k] == e;
        assert((|a: Seq<char>| a != e)(out[k]));
    }
    assert forall|a: Seq<char>| a != e && list.contains(a) implies #[trigger] out.contains(a) by {
        let k = choose|k: int| 0 <= k < list.len() && list[k] == a;
        list.lemma_filter_contains(|x: Seq<char>| x != e, k);
    }
}


proof fn lemma_without_absent(list: Seq<Seq<char>>, e: Seq<char>)
    requires
        !list.contains(e),
    ensures
        without(list, e) == list,
    decreases list.len(),
{
    reveal(Seq::filter);
    if list.len() > 0 {
        let rest = list.drop_last();
        if rest.contains(e) {
            let k = choose|k: int| 0 <= k < rest.len() && rest[k] == e;
            assert(list[k] == e);
        }
        lemma_without_absent(rest, e);
        assert(list.last() != e);
        assert(rest.push(list.last()) =~= list);
    }
}

/// A receiver that joins and then leaves takes out every entry with its
/// address: the audience is what it was before the join, less that
/// receiver, and exactly what it was when the receiver was not in it.
pub proof fn lemma_join_then_leave(list: Seq<Seq<char>>, e: Seq<char>)
    ensures
        audience_after(audience_after(list, e, Action::Register), e, Action::Disconnect) == without(list, e),
        !list.contains(e) ==> audience_after(audience_after(list, e, Action::Register), e, Action::Disconnect) == list,
{
    reveal(Seq::filter);
    assert(list.push(e).drop_last() =~= list);
    assert(list.push(e).last() == e);
    assert(without(list.push(e), e) == without(list, e));
    if !list.contains(e) {
        lemma_without_absent(list, e);
    }
}

} // verus!
