use huawei_modem::pdu::DeliverPdu;
use sms_irc::contact::{NOT_ADMIN_NOTICE, SMS_MODE_NOTICE, UNDECODABLE_NOTICE, WA_MODE_NOTICE};
use sms_irc::{Action, ContactCommand, ContactError, ContactManager, IrcEvent, Message, Recipient};

const ADDR: &str = "+15551234";
const ADMIN: &str = "admin";

/// An SMS-DELIVER PDU from +15551234 whose text is "Hi".
fn hi_pdu() -> Vec<u8> {
    vec![
        0x00, 0x04, 0x08, 0x91, 0x51, 0x55, 0x21, 0x43, 0x00, 0x00, 0x91, 0x10, 0x10, 0x21, 0x43,
        0x65, 0x00, 0x02, 0xC8, 0x34,
    ]
}

fn alice(whatsapp: bool) -> ContactManager {
    let recip = if whatsapp {
        Recipient::new_wa(ADDR.to_string(), "alice".to_string(), None, 0)
    } else {
        Recipient::new_sms(ADDR.to_string(), "alice".to_string())
    };
    ContactManager::new(recip, ADMIN.to_string(), None, "example.org")
}

fn connect(c: &mut ContactManager) -> Vec<Action> {
    c.handle_irc_message(IrcEvent::EndOfMotd).unwrap()
}

fn sms(id: i64) -> Message {
    let mut m = Message::new_sms(ADDR.to_string(), hi_pdu(), None, 1000);
    m.id = id;
    m
}

fn wa_text(id: i64, text: &str) -> Message {
    let mut m = Message::new_wa(ADDR.to_string(), text.to_string(), None, 1000);
    m.id = id;
    m
}

fn privmsg(from: &str, target: &str, text: &str) -> IrcEvent {
    IrcEvent::Privmsg {
        sender: Some(from.to_string()),
        target: target.to_string(),
        text: text.to_string(),
    }
}

fn raw(cmd: &str, args: &[&str]) -> IrcEvent {
    IrcEvent::Raw {
        command: cmd.to_string(),
        args: args.iter().map(|a| a.to_string()).collect(),
    }
}

fn decoded_text(pdu: &DeliverPdu) -> String {
    pdu.get_message_data().decode_message().unwrap().text
}

fn has_upstream(acts: &[Action]) -> bool {
    acts.iter()
        .any(|a| matches!(a, Action::SendModem(_) | Action::SendWhatsapp(_)))
}

#[test]
fn sms_delivered_while_admin_online() {
    let mut c = alice(false);
    let acts = connect(&mut c);
    assert_eq!(acts.len(), 4);
    assert!(matches!(acts[0], Action::FetchMessages));
    assert!(matches!(&acts[1], Action::Watch(w) if w == "+admin"));
    assert!(matches!(acts[2], Action::Away(None)));
    assert!(matches!(acts[3], Action::FetchGroups));
    let acts = c.deliver_messages(&vec![sms(1)]);
    assert_eq!(acts.len(), 2);
    match &acts[0] {
        Action::DeliverSms { id, pdu } => {
            assert_eq!(*id, 1);
            assert_eq!(decoded_text(pdu), "Hi");
        }
        other => panic!("unexpected {:?}", other),
    }
    assert!(matches!(acts[1], Action::DeleteMessage(1)));
}

#[test]
fn queued_while_admin_offline() {
    let mut c = alice(false);
    connect(&mut c);
    let acts = c.handle_irc_message(raw("601", &["alice", ADMIN, "u", "h"])).unwrap();
    assert!(acts.is_empty());
    assert!(!c.admin_is_online());
    assert!(c.handle_command(ContactCommand::ProcessMessages).is_empty());
    assert!(c.deliver_messages(&vec![sms(1)]).is_empty());
    let acts = c.handle_irc_message(raw("600", &["alice", ADMIN, "u", "h"])).unwrap();
    assert_eq!(acts.len(), 1);
    assert!(matches!(acts[0], Action::FetchMessages));
    assert!(c.admin_is_online());
    let acts = c.deliver_messages(&vec![sms(1)]);
    assert!(matches!(acts[0], Action::DeliverSms { id: 1, .. }));
    assert!(matches!(acts[1], Action::DeleteMessage(1)));
}

#[test]
fn admin_online_again_is_not_reprocessed() {
    let mut c = alice(false);
    connect(&mut c);
    let acts = c.handle_irc_message(raw("604", &["alice", ADMIN])).unwrap();
    assert!(acts.is_empty());
    let acts = c.handle_irc_message(raw("605", &["alice", "someone"])).unwrap();
    assert!(acts.is_empty());
    assert!(c.admin_is_online());
    let acts = c.handle_irc_message(raw("605", &["alice"])).unwrap();
    assert!(acts.is_empty());
    assert!(c.admin_is_online());
}

#[test]
fn sms_switches_to_sms_mode() {
    let mut c = alice(true);
    connect(&mut c);
    let acts = c.deliver_messages(&vec![sms(7)]);
    assert_eq!(acts.len(), 4);
    assert!(matches!(acts[0], Action::SaveWaMode(false)));
    assert!(matches!(&acts[1], Action::Notice { to, text } if to == ADMIN && text == SMS_MODE_NOTICE));
    assert!(SMS_MODE_NOTICE.contains("SMS mode automatically enabled"));
    assert!(matches!(acts[2], Action::DeliverSms { id: 7, .. }));
    assert!(matches!(acts[3], Action::DeleteMessage(7)));
    assert!(!c.wa_mode());
}

#[test]
fn text_switches_to_whatsapp_mode_once() {
    let mut c = alice(false);
    connect(&mut c);
    let acts = c.deliver_messages(&vec![wa_text(1, "yo"), wa_text(2, "again")]);
    assert_eq!(acts.len(), 6);
    assert!(matches!(acts[0], Action::SaveWaMode(true)));
    assert!(matches!(&acts[1], Action::Notice { to, text } if to == ADMIN && text == WA_MODE_NOTICE));
    assert!(matches!(&acts[2], Action::DeliverText { id: 1, text } if text == "yo"));
    assert!(matches!(acts[3], Action::DeleteMessage(1)));
    assert!(matches!(&acts[4], Action::DeliverText { id: 2, text } if text == "again"));
    assert!(matches!(acts[5], Action::DeleteMessage(2)));
    assert!(c.wa_mode());
}

#[test]
fn every_deliverable_message_is_deleted() {
    let mut c = alice(false);
    connect(&mut c);
    let acts = c.deliver_messages(&vec![sms(1), wa_text(2, "a"), sms(3), wa_text(4, "b")]);
    let deleted: Vec<i64> = acts
        .iter()
        .filter_map(|a| match a {
            Action::DeleteMessage(id) => Some(*id),
            _ => None,
        })
        .collect();
    assert_eq!(deleted, vec![1, 2, 3, 4]);
}

#[test]
fn undecodable_sms_is_reported_and_kept() {
    let mut c = alice(true);
    connect(&mut c);
    let mut bad = Message::new_sms(ADDR.to_string(), vec![], None, 5);
    bad.id = 9;
    let acts = c.deliver_messages(&vec![bad]);
    assert_eq!(acts.len(), 1);
    assert!(matches!(&acts[0], Action::Notice { to, text } if to == ADMIN && text == UNDECODABLE_NOTICE));
    assert!(c.wa_mode());
}

#[test]
fn nothing_delivered_before_registration() {
    let mut c = alice(false);
    assert!(c.deliver_messages(&vec![sms(1)]).is_empty());
    assert!(c.handle_command(ContactCommand::ProcessMessages).is_empty());
    assert!(c.handle_command(ContactCommand::ProcessGroups).is_empty());
    assert!(c.reconcile_groups(vec!["#a".to_string()]).is_empty());
    assert!(c.channels().is_empty());
}

#[test]
fn admin_privmsg_goes_to_whatsapp() {
    let mut c = alice(true);
    connect(&mut c);
    let acts = c.handle_irc_message(privmsg(ADMIN, "alice", "pong")).unwrap();
    assert_eq!(acts.len(), 1);
    assert!(matches!(&acts[0], Action::SendWhatsapp(t) if t == "pong"));
    assert!(!acts.iter().any(|a| matches!(a, Action::SendModem(_))));
}

#[test]
fn admin_privmsg_goes_to_modem() {
    let mut c = alice(false);
    let acts = c.handle_irc_message(privmsg(ADMIN, "alice", "ping")).unwrap();
    assert_eq!(acts.len(), 1);
    assert!(matches!(&acts[0], Action::SendModem(t) if t == "ping"));
}

#[test]
fn admin_privmsg_to_other_target_is_ignored() {
    let mut c = alice(false);
    let acts = c.handle_irc_message(privmsg(ADMIN, "#chan", "ping")).unwrap();
    assert!(acts.is_empty());
}

#[test]
fn stranger_is_denied() {
    let mut c = alice(false);
    connect(&mut c);
    let acts = c.handle_irc_message(privmsg("bob", "alice", "hello")).unwrap();
    assert_eq!(acts.len(), 1);
    assert!(matches!(&acts[0], Action::Notice { to, text } if to == "bob" && text == NOT_ADMIN_NOTICE));
    assert!(!has_upstream(&acts));
}

#[test]
fn group_reconcile_joins_and_parts() {
    let mut c = alice(false);
    connect(&mut c);
    c.reconcile_groups(vec!["#a".to_string(), "#b".to_string()]);
    let acts = c.reconcile_groups(vec!["#b".to_string(), "#c".to_string()]);
    assert_eq!(acts.len(), 3);
    assert!(matches!(&acts[0], Action::Join(ch) if ch == "#b"));
    assert!(matches!(&acts[1], Action::Join(ch) if ch == "#c"));
    assert!(matches!(&acts[2], Action::Part(ch) if ch == "#a"));
    assert_eq!(c.channels(), &vec!["#b".to_string(), "#c".to_string()]);
}

#[test]
fn group_reconcile_twice_parts_nothing() {
    let mut c = alice(false);
    connect(&mut c);
    let chans = vec!["#x".to_string(), "#y".to_string()];
    c.reconcile_groups(chans.clone());
    let acts = c.reconcile_groups(chans.clone());
    assert!(!acts.iter().any(|a| matches!(a, Action::Part(_))));
    assert!(acts.iter().all(|a| matches!(a, Action::Join(ch) if chans.contains(ch))));
    assert_eq!(c.channels(), &chans);
}

#[test]
fn nick_changes_only_on_echo() {
    let mut c = alice(false);
    let acts = c.handle_command(ContactCommand::ChangeNick("alice2".to_string(), 1));
    assert_eq!(acts.len(), 2);
    assert!(matches!(&acts[0], Action::SaveNick { nick, src: 1 } if nick == "alice2"));
    assert!(matches!(&acts[1], Action::Nick(n) if n == "alice2"));
    assert_eq!(c.nick(), "alice");
    let ev = IrcEvent::Nick { sender: Some("carol".to_string()), new_nick: "alice2".to_string() };
    c.handle_irc_message(ev).unwrap();
    assert_eq!(c.nick(), "alice");
    let ev = IrcEvent::Nick { sender: Some("alice".to_string()), new_nick: "alice2".to_string() };
    c.handle_irc_message(ev).unwrap();
    assert_eq!(c.nick(), "alice2");
}

#[test]
fn away_and_mode_commands() {
    let mut c = alice(false);
    assert!(c.handle_command(ContactCommand::UpdateAway(Some("gone".to_string()))).is_empty());
    connect(&mut c);
    let acts = c.handle_command(ContactCommand::UpdateAway(None));
    assert!(matches!(acts[0], Action::Away(None)));
    let acts = c.handle_command(ContactCommand::SetWhatsapp(true));
    assert!(matches!(acts[0], Action::SaveWaMode(true)));
    assert!(c.wa_mode());
}

#[test]
fn away_state_is_sent_on_registration() {
    let mut c = alice(false);
    c.handle_command(ContactCommand::UpdateAway(Some("gone".to_string())));
    let acts = connect(&mut c);
    assert!(matches!(&acts[2], Action::Away(Some(p)) if p == "gone"));
}

#[test]
fn identification_happens_once_with_webirc() {
    let recip = Recipient::new_sms(ADDR.to_string(), "alice".to_string());
    let mut c = ContactManager::new(recip, ADMIN.to_string(), Some("pw".to_string()), "example.org");
    let acts = c.identify();
    assert_eq!(acts.len(), 2);
    assert!(matches!(&acts[0], Action::Webirc { password, vhost }
        if password == "pw" && vhost == "S15551234.sms-irc.example.org"));
    assert!(matches!(acts[1], Action::Identify));
    assert!(c.identify().is_empty());
}

#[test]
fn identification_without_webirc() {
    let mut c = alice(false);
    let acts = c.identify();
    assert_eq!(acts.len(), 1);
    assert!(matches!(acts[0], Action::Identify));
}

#[test]
fn server_error_is_fatal() {
    let mut c = alice(false);
    let r = c.handle_irc_message(IrcEvent::Error("bye".to_string()));
    assert!(matches!(r, Err(ContactError::Server(m)) if m == "bye"));
}

#[test]
fn missing_watch_is_reported() {
    let mut c = alice(false);
    let ev = IrcEvent::UnknownCommand { args: vec!["alice".to_string(), "WATCH".to_string()] };
    let acts = c.handle_irc_message(ev).unwrap();
    assert!(matches!(acts[0], Action::WatchUnsupported));
    let ev = IrcEvent::UnknownCommand { args: vec!["alice".to_string(), "FOO".to_string()] };
    assert!(c.handle_irc_message(ev).unwrap().is_empty());
    assert!(c.handle_irc_message(IrcEvent::Other).unwrap().is_empty());
}

#[test]
fn sender_capability_targets_admin() {
    let c = alice(false);
    assert_eq!(c.private_target(), ADMIN);
    assert!(matches!(c.report_error("oops".to_string()), Action::Notice { to, text } if to == ADMIN && text == "oops"));
    assert!(matches!(c.send_irc_message("admin".to_string(), "hi".to_string()),
        Action::Privmsg { to, text } if to == "admin" && text == "hi"));
}
