//! Properties of a contact that follow from its transition rules.

use crate::contact::{
    ActionView, ContactCommand, ContactView, IrcEvent, NOT_ADMIN_NOTICE, command_outcome, deliverable,
    delivery_plan, delivery_step, fetch_messages_plan, irc_outcome, joins_plan, mode_after, parts_plan,
};
use crate::model::Message;
use vstd::prelude::*;

verus! {

/// Delivering a batch deletes every message in it that can be delivered.
pub proof fn lemma_delivery_deletes_deliverable(wa: bool, admin: Seq<char>, msgs: Seq<Message>)
    ensures
        forall|i: int|
            0 <= i < msgs.len() && deliverable(#[trigger] msgs[i]) ==> delivery_plan(wa, admin, msgs).contains(
                ActionView::DeleteMessage(msgs[i].id),
            ),
    decreases msgs.len(),
{
    if msgs.len() > 0 {
        let init = msgs.drop_last();
        lemma_delivery_deletes_deliverable(wa, admin, init);
        let plan = delivery_plan(wa, admin, msgs);
        let head = delivery_plan(wa, admin, init);
        let step = delivery_step(crate::contact::mode_through(wa, init), admin, msgs.last());
        assert(plan == head + step);
        assert forall|i: int| 0 <= i < msgs.len() && deliverable(#[trigger] msgs[i]) implies plan.contains(
            ActionView::DeleteMessage(msgs[i].id),
        ) by {
            if i < msgs.len() - 1 {
                assert(init[i] == msgs[i]);
                let j = choose|j: int| 0 <= j < head.len() && head[j] == ActionView::DeleteMessage(msgs[i].id);
                assert(plan[j] == head[j]);
            } else {
                assert(step[step.len() - 1] == ActionView::DeleteMessage(msgs[i].id));
                assert(plan[head.len() + step.len() - 1] == step[step.len() - 1]);
            }
        }
    }
}

/// While the administrator is offline, asking a contact to process its
/// messages reads and deletes nothing.
pub proof fn lemma_offline_admin_gates_delivery(s: ContactView)
    requires
        !s.admin_is_online,
    ensures
        command_outcome(s, ContactCommand::ProcessMessages) == (s, Seq::<ActionView>::empty()),
{
    assert(fetch_messages_plan(s) =~= Seq::<ActionView>::empty());
}

/// A deliverable SMS switches the contact to SMS, and a text message to
/// WhatsApp; the switch is persisted first when the mode changes.
pub proof fn lemma_mode_follows_message(wa: bool, admin: Seq<char>, m: Message)
    requires
        deliverable(m),
    ensures
        mode_after(wa, m) == (m.pdu is None),
        wa != (m.pdu is None) ==> delivery_step(wa, admin, m)[0] == ActionView::SaveWaMode(m.pdu is None),
{
}

/// A second group sync with the same channels parts nothing, and joins only
/// channels the contact already holds.
pub proof fn lemma_group_sync_idempotent(current: Seq<Seq<char>>)
    ensures
        parts_plan(current, current) == Seq::<ActionView>::empty(),
        joins_plan(current) + parts_plan(current, current) == joins_plan(current),
        forall|i: int|
            0 <= i < joins_plan(current).len() ==> #[trigger] joins_plan(current)[i] == ActionView::Join(current[i])
                && current.contains(current[i]),
{
    lemma_parts_of_kept(current, current);
    assert(joins_plan(current) + parts_plan(current, current) =~= joins_plan(current));
}

proof fn lemma_parts_of_kept(previous: Seq<Seq<char>>, current: Seq<Seq<char>>)
    requires
        forall|i: int| 0 <= i < previous.len() ==> current.contains(#[trigger] previous[i]),
    ensures
        parts_plan(previous, current) == Seq::<ActionView>::empty(),
    decreases previous.len(),
{
    if previous.len() > 0 {
        let init = previous.drop_last();
        assert forall|i: int| 0 <= i < init.len() implies current.contains(#[trigger] init[i]) by {
            assert(init[i] == previous[i]);
        }
        lemma_parts_of_kept(init, current);
        assert(current.contains(previous[previous.len() - 1]));
        assert(parts_plan(previous, current) =~= Seq::<ActionView>::empty());
    }
}

/// A message from anyone but the administrator is refused with exactly one
/// notice to its sender, and nothing is sent upstream.
pub proof fn lemma_stranger_is_refused(s: ContactView, sender: String, target: String, text: String)
    requires
        sender@ != s.admin,
    ensures
        irc_outcome(s, IrcEvent::Privmsg { sender: Some(sender), target, text }) == (
            s,
            seq![ActionView::Notice { to: sender@, text: NOT_ADMIN_NOTICE@ }],
        ),
{
}

/// Asking for a new nickname leaves the held nickname alone; only the
/// server's echo of a `NICK` from the held nickname changes it.
pub proof fn lemma_nick_changes_on_echo(s: ContactView, nick: String, src: i32, sender: Option<String>, new_nick: String)
    ensures
        command_outcome(s, ContactCommand::ChangeNick(nick, src)).0.nick == s.nick,
        irc_outcome(s, IrcEvent::Nick { sender, new_nick }).0.nick == if sender is Some && sender->0@ == s.nick {
            new_nick@
        } else {
            s.nick
        },
{
}

} // verus!
