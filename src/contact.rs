//! One correspondent as a virtual IRC user.
//!
//! `ContactManager` holds the state of one contact and decides, for each IRC
//! event and each inbox command, the next state and the ordered list of
//! `Action`s to carry out. Whoever drives the IRC connection, the store and
//! the upstream channels performs those actions in order, and hands back what
//! the store returned through `deliver_messages` and `reconcile_groups`.

use crate::pdu::{decode_pdu, pdu_decodes};
use crate::model::{Message, Recipient};
use huawei_modem::pdu::DeliverPdu;
use vstd::prelude::*;
use vstd::string::*;
use vstd::utf8::encode_utf8;

verus! {

pub const NOT_ADMIN_NOTICE: &'static str = "Message not delivered; you aren't the SMS bridge administrator!";

pub const SMS_MODE_NOTICE: &'static str = "Notice: SMS mode automatically enabled.";

pub const WA_MODE_NOTICE: &'static str = "Notice: WhatsApp mode automatically enabled.";

pub const UNDECODABLE_NOTICE: &'static str = "Notice: an SMS could not be decoded and was kept in the queue.";

/// What the IRC server told this contact's connection.
#[derive(Debug)]
pub enum IrcEvent {
    /// `RPL_ENDOFMOTD` or `ERR_NOMOTD`: registration is complete.
    EndOfMotd,
    /// `NICK`; `sender` is the nickname part of the prefix.
    Nick { sender: Option<String>, new_nick: String },
    /// `PRIVMSG`; `sender` is the nickname part of the prefix.
    Privmsg { sender: Option<String>, target: String, text: String },
    /// A numeric or command the protocol library does not know.
    Raw { command: String, args: Vec<String> },
    /// `ERR_UNKNOWNCOMMAND`.
    UnknownCommand { args: Vec<String> },
    /// `ERROR`: the server is closing the link.
    Error(String),
    /// Anything else.
    Other,
}

/// A command put into a contact's inbox.
#[derive(Debug)]
pub enum ContactCommand {
    ProcessMessages,
    ProcessGroups,
    UpdateAway(Option<String>),
    ChangeNick(String, i32),
    SetWhatsapp(bool),
}

/// Something for the driver to do, in the order given.
#[derive(Debug)]
pub enum Action {
    /// Raw `WEBIRC <password> sms-irc <vhost> 127.0.0.1`.
    Webirc { password: String, vhost: String },
    /// Standard `NICK`/`USER` registration.
    Identify,
    /// Raw `WATCH <arg>`.
    Watch(String),
    Away(Option<String>),
    Nick(String),
    Notice { to: String, text: String },
    Privmsg { to: String, text: String },
    Join(String),
    Part(String),
    /// Read this contact's queued messages and pass them to `deliver_messages`.
    FetchMessages,
    /// Read this contact's group channels and pass them to `reconcile_groups`.
    FetchGroups,
    /// Send a decoded SMS (queued as message `id`) to the administrator.
    DeliverSms { id: i64, pdu: DeliverPdu },
    /// Send a text message (queued as message `id`) to the administrator.
    DeliverText { id: i64, text: String },
    DeleteMessage(i64),
    /// Persist the recipient's transport mode.
    SaveWaMode(bool),
    /// Persist the recipient's nickname and who chose it.
    SaveNick { nick: String, src: i32 },
    /// Send text to the correspondent over WhatsApp.
    SendWhatsapp(String),
    /// Send text to the correspondent by SMS.
    SendModem(String),
    /// The server does not implement `WATCH`.
    WatchUnsupported,
}

/// The model of an `Action`: text as character sequences, a decoded PDU
/// represented by the id of the message it came from.
pub enum ActionView {
    Webirc { password: Seq<char>, vhost: Seq<char> },
    Identify,
    Watch(Seq<char>),
    Away(Option<Seq<char>>),
    Nick(Seq<char>),
    Notice { to: Seq<char>, text: Seq<char> },
    Privmsg { to: Seq<char>, text: Seq<char> },
    Join(Seq<char>),
    Part(Seq<char>),
    FetchMessages,
    FetchGroups,
    DeliverSms { id: i64 },
    DeliverText { id: i64, text: Seq<char> },
    DeleteMessage(i64),
    SaveWaMode(bool),
    SaveNick { nick: Seq<char>, src: i32 },
    SendWhatsapp(Seq<char>),
    SendModem(Seq<char>),
    WatchUnsupported,
}

pub open spec fn opt_view(o: Option<String>) -> Option<Seq<char>> {
    match o {
        Some(s) => Some(s@),
        None => None,
    }
}

pub open spec fn strs_view(v: Seq<String>) -> Seq<Seq<char>> {
    v.map_values(|s: String| s@)
}

impl View for Action {
    type V = ActionView;

    open spec fn view(&self) -> ActionView {
        match self {
            Action::Webirc { password, vhost } => ActionView::Webirc { password: password@, vhost: vhost@ },
            Action::Identify => ActionView::Identify,
            Action::Watch(a) => ActionView::Watch(a@),
            Action::Away(p) => ActionView::Away(opt_view(*p)),
            Action::Nick(n) => ActionView::Nick(n@),
            Action::Notice { to, text } => ActionView::Notice { to: to@, text: text@ },
            Action::Privmsg { to, text } => ActionView::Privmsg { to: to@, text: text@ },
            Action::Join(c) => ActionView::Join(c@),
            Action::Part(c) => ActionView::Part(c@),
            Action::FetchMessages => ActionView::FetchMessages,
            Action::FetchGroups => ActionView::FetchGroups,
            Action::DeliverSms { id, pdu } => ActionView::DeliverSms { id: *id },
            Action::DeliverText { id, text } => ActionView::DeliverText { id: *id, text: text@ },
            Action::DeleteMessage(id) => ActionView::DeleteMessage(*id),
            Action::SaveWaMode(b) => ActionView::SaveWaMode(*b),
            Action::SaveNick { nick, src } => ActionView::SaveNick { nick: nick@, src: *src },
            Action::SendWhatsapp(t) => ActionView::SendWhatsapp(t@),
            Action::SendModem(t) => ActionView::SendModem(t@),
            Action::WatchUnsupported => ActionView::WatchUnsupported,
        }
    }
}

pub open spec fn actions_view(a: Seq<Action>) -> Seq<ActionView> {
    a.map_values(|x: Action| x@)
}

/// Why a contact has to stop.
#[derive(Debug)]
pub enum ContactError {
    /// The server sent `ERROR` with this text.
    Server(String),
}

/// The model of a contact's state.
pub struct ContactView {
    pub addr: Seq<char>,
    pub nick: Seq<char>,
    pub admin: Seq<char>,
    pub webirc_password: Option<Seq<char>>,
    pub vhost: Seq<char>,
    pub id: bool,
    pub wa_mode: bool,
    pub admin_is_online: bool,
    pub connected: bool,
    pub presence: Option<Seq<char>>,
    pub channels: Seq<Seq<char>>,
}

/// The state of one contact: a virtual IRC user standing for one correspondent.
pub struct ContactManager {
    addr: String,
    nick: String,
    admin: String,
    webirc_password: Option<String>,
    vhost: String,
    id: bool,
    wa_mode: bool,
    admin_is_online: bool,
    connected: bool,
    presence: Option<String>,
    channels: Vec<String>,
}

impl View for ContactManager {
    type V = ContactView;

    closed spec fn view(&self) -> ContactView {
        ContactView {
            addr: self.addr@,
            nick: self.nick@,
            admin: self.admin@,
            webirc_password: opt_view(self.webirc_password),
            vhost: self.vhost@,
            id: self.id,
            wa_mode: self.wa_mode,
            admin_is_online: self.admin_is_online,
            connected: self.connected,
            presence: opt_view(self.presence),
            channels: strs_view(self.channels@),
        }
    }
}


/// The characters of an address that may stand in a host name label: its
/// ASCII letters and digits, in order.
pub open spec fn label_chars(b: Seq<u8>) -> Seq<char>
    decreases b.len(),
{
    if b.len() == 0 {
        seq![]
    } else {
        let c = b.last();
        let rest = label_chars(b.drop_last());
        if is_alnum_byte(c) {
            rest.push(c as char)
        } else {
            rest
        }
    }
}

pub open spec fn is_alnum_byte(c: u8) -> bool {
    (48 <= c <= 57) || (65 <= c <= 90) || (97 <= c <= 122)
}

/// The virtual host announced for `addr` with WEBIRC.
pub open spec fn vhost_of(addr: Seq<char>, suffix: Seq<char>) -> Seq<char> {
    seq!['S'] + label_chars(encode_utf8(addr)) + ".sms-irc."@ + suffix
}

/// The argument of the `WATCH` command that subscribes to `admin`.
pub open spec fn watch_arg(admin: Seq<char>) -> Seq<char> {
    "+"@ + admin
}

pub open spec fn fetch_messages_plan(s: ContactView) -> Seq<ActionView> {
    if s.connected && s.admin_is_online {
        seq![ActionView::FetchMessages]
    } else {
        seq![]
    }
}

pub open spec fn fetch_groups_plan(s: ContactView) -> Seq<ActionView> {
    if s.connected {
        seq![ActionView::FetchGroups]
    } else {
        seq![]
    }
}

pub open spec fn away_plan(s: ContactView) -> Seq<ActionView> {
    if s.connected {
        seq![ActionView::Away(s.presence)]
    } else {
        seq![]
    }
}

pub open spec fn identify_plan(s: ContactView) -> Seq<ActionView> {
    match s.webirc_password {
        Some(p) => seq![ActionView::Webirc { password: p, vhost: s.vhost }, ActionView::Identify],
        None => seq![ActionView::Identify],
    }
}

/// The next state and the actions for an inbox command.
pub open spec fn command_outcome(s: ContactView, cmd: ContactCommand) -> (ContactView, Seq<ActionView>) {
    match cmd {
        ContactCommand::ProcessMessages => (s, fetch_messages_plan(s)),
        ContactCommand::ProcessGroups => (s, fetch_groups_plan(s)),
        ContactCommand::UpdateAway(p) => {
            let t = ContactView { presence: opt_view(p), ..s };
            (t, away_plan(t))
        },
        ContactCommand::ChangeNick(n, src) => (
            s,
            seq![ActionView::SaveNick { nick: n@, src }, ActionView::Nick(n@)],
        ),
        ContactCommand::SetWhatsapp(b) => (ContactView { wa_mode: b, ..s }, seq![ActionView::SaveWaMode(b)]),
    }
}

pub open spec fn is_watch_on(c: Seq<char>) -> bool {
    c == "600"@ || c == "604"@
}

pub open spec fn is_watch_off(c: Seq<char>) -> bool {
    c == "601"@ || c == "605"@
}

/// The next state and the actions for an IRC event (an `ERROR` event stops
/// the contact instead).
pub open spec fn irc_outcome(s: ContactView, ev: IrcEvent) -> (ContactView, Seq<ActionView>) {
    match ev {
        IrcEvent::EndOfMotd => {
            let t = ContactView { connected: true, ..s };
            (
                t,
                fetch_messages_plan(t) + seq![ActionView::Watch(watch_arg(t.admin))] + away_plan(t)
                    + fetch_groups_plan(t),
            )
        },
        IrcEvent::Nick { sender, new_nick } => {
            if opt_view(sender) == Some(s.nick) {
                (ContactView { nick: new_nick@, ..s }, seq![])
            } else {
                (s, seq![])
            }
        },
        IrcEvent::Privmsg { sender, target, text } => match sender {
            None => (s, seq![]),
            Some(f) => if f@ != s.admin {
                (s, seq![ActionView::Notice { to: f@, text: NOT_ADMIN_NOTICE@ }])
            } else if target@ == s.nick {
                if s.wa_mode {
                    (s, seq![ActionView::SendWhatsapp(text@)])
                } else {
                    (s, seq![ActionView::SendModem(text@)])
                }
            } else {
                (s, seq![])
            },
        },
        IrcEvent::Raw { command, args } => {
            if args@.len() < 2 {
                (s, seq![])
            } else if is_watch_on(command@) {
                if args@[1]@ == s.admin && !s.admin_is_online {
                    let t = ContactView { admin_is_online: true, ..s };
                    (t, fetch_messages_plan(t))
                } else {
                    (s, seq![])
                }
            } else if is_watch_off(command@) && args@[1]@ == s.admin {
                (ContactView { admin_is_online: false, ..s }, seq![])
            } else {
                (s, seq![])
            }
        },
        IrcEvent::UnknownCommand { args } => {
            if args@.len() == 2 && args@[1]@ == "WATCH"@ {
                (s, seq![ActionView::WatchUnsupported])
            } else {
                (s, seq![])
            }
        },
        IrcEvent::Error(_) => (s, seq![]),
        IrcEvent::Other => (s, seq![]),
    }
}

/// The transport mode a contact is in after `m` is delivered in mode `wa`:
/// an SMS switches it to SMS, a WhatsApp message to WhatsApp; an SMS that
/// cannot be decoded leaves it alone.
pub open spec fn mode_after(wa: bool, m: Message) -> bool {
    match m.pdu {
        Some(b) => if pdu_decodes(b@) {
            false
        } else {
            wa
        },
        None => true,
    }
}

pub open spec fn text_of(m: Message) -> Seq<char> {
    match m.text {
        Some(t) => t@,
        None => seq![],
    }
}

/// What delivering `m` in mode `wa` does.
pub open spec fn delivery_step(wa: bool, admin: Seq<char>, m: Message) -> Seq<ActionView> {
    match m.pdu {
        Some(b) => if !pdu_decodes(b@) {
            seq![ActionView::Notice { to: admin, text: UNDECODABLE_NOTICE@ }]
        } else {
            (if wa {
                seq![ActionView::SaveWaMode(false), ActionView::Notice { to: admin, text: SMS_MODE_NOTICE@ }]
            } else {
                seq![]
            }) + seq![ActionView::DeliverSms { id: m.id }, ActionView::DeleteMessage(m.id)]
        },
        None => (if !wa {
            seq![ActionView::SaveWaMode(true), ActionView::Notice { to: admin, text: WA_MODE_NOTICE@ }]
        } else {
            seq![]
        }) + seq![ActionView::DeliverText { id: m.id, text: text_of(m) }, ActionView::DeleteMessage(m.id)],
    }
}

/// The transport mode after delivering `msgs` in order, starting in mode `wa`.
pub open spec fn mode_through(wa: bool, msgs: Seq<Message>) -> bool
    decreases msgs.len(),
{
    if msgs.len() == 0 {
        wa
    } else {
        mode_after(mode_through(wa, msgs.drop_last()), msgs.last())
    }
}

/// What delivering `msgs` in order does, starting in mode `wa`.
pub open spec fn delivery_plan(wa: bool, admin: Seq<char>, msgs: Seq<Message>) -> Seq<ActionView>
    decreases msgs.len(),
{
    if msgs.len() == 0 {
        seq![]
    } else {
        delivery_plan(wa, admin, msgs.drop_last()) + delivery_step(
            mode_through(wa, msgs.drop_last()),
            admin,
            msgs.last(),
        )
    }
}

/// A queued message that delivery can hand to IRC: a text message, or an SMS
/// whose PDU decodes.
pub open spec fn deliverable(m: Message) -> bool {
    match m.pdu {
        Some(b) => pdu_decodes(b@),
        None => true,
    }
}

/// The joins of a group sync: every current channel, in order.
pub open spec fn joins_plan(current: Seq<Seq<char>>) -> Seq<ActionView> {
    current.map_values(|c: Seq<char>| ActionView::Join(c))
}

/// The parts of a group sync: every previously joined channel that is no
/// longer current, in order.
pub open spec fn parts_plan(previous: Seq<Seq<char>>, current: Seq<Seq<char>>) -> Seq<ActionView>
    decreases previous.len(),
{
    if previous.len() == 0 {
        seq![]
    } else {
        parts_plan(previous.drop_last(), current) + if current.contains(previous.last()) {
            seq![]
        } else {
            seq![ActionView::Part(previous.last())]
        }
    }
}

/// Whether `s` is one of `v`.
fn contains_text(v: &Vec<String>, s: &String) -> (r: bool)
    ensures
        r == strs_view(v@).contains(s@),
{
    let mut i: usize = 0;
    while i < v.len()
        invariant
            i <= v.len(),
            forall|j: int| 0 <= j < i ==> v@[j]@ != s@,
        decreases v.len() - i,
    {
        if v[i].eq(s) {
            assert(strs_view(v@)[i as int] == s@);
            return true;
        }
        i = i + 1;
    }
    assert(!strs_view(v@).contains(s@)) by {
        assert forall|j: int| 0 <= j < strs_view(v@).len() implies strs_view(v@)[j] != s@ by {
            assert(v@[j]@ != s@);
        }
    }
    false
}

/// Relies on `String::push`: appends one character.
#[verifier::external_body]
fn push_char(s: &mut String, c: char)
    ensures
        final(s)@ == old(s)@.push(c),
{
    s.push(c)
}

/// Whether `a` and the literal `b` hold the same text.
fn same_text(a: &String, b: &str) -> (r: bool)
    ensures
        r == (a@ == b@),
{
    let t = b.to_owned();
    a.eq(&t)
}

fn to_string(b: &str) -> (r: String)
    ensures
        r@ == b@,
{
    b.to_owned()
}

proof fn lemma_views_push(a: Seq<Action>, x: Action)
    ensures
        actions_view(a.push(x)) == actions_view(a).push(x@),
{
    assert(actions_view(a.push(x)) =~= actions_view(a).push(x@));
}

impl ContactManager {
    /// A contact for `recip`, not yet registered on IRC. The administrator is
    /// assumed online until the server says otherwise.
    pub fn new(recip: Recipient, admin: String, webirc_password: Option<String>, vhost_suffix: &str) -> (c: ContactManager)
        ensures
            c@ == (ContactView {
                addr: recip.phone_number@,
                nick: recip.nick@,
                admin: admin@,
                webirc_password: opt_view(webirc_password),
                vhost: vhost_of(recip.phone_number@, vhost_suffix@),
                id: false,
                wa_mode: recip.whatsapp,
                admin_is_online: true,
                connected: false,
                presence: None,
                channels: seq![],
            }),
    {
        let bytes = recip.phone_number.as_str().as_bytes();
        let mut vhost = to_string("S");
        proof {
            reveal_strlit("S");
        }
        let mut i: usize = 0;
        while i < bytes.len()
            invariant
                i <= bytes@.len(),
                bytes@ == encode_utf8(recip.phone_number@),
                vhost@ == seq!['S'] + label_chars(bytes@.take(i as int)),
            decreases bytes.len() - i,
        {
            let c = bytes[i];
            assert(bytes@.take(i + 1).drop_last() == bytes@.take(i as int));
            if (48 <= c && c <= 57) || (65 <= c && c <= 90) || (97 <= c && c <= 122) {
                push_char(&mut vhost, c as char);
            }
            i = i + 1;
            assert(vhost@ =~= seq!['S'] + label_chars(bytes@.take(i as int)));
        }
        assert(bytes@.take(bytes@.len() as int) =~= bytes@);
        vhost.append(".sms-irc.");
        vhost.append(vhost_suffix);
        let c = ContactManager {
            addr: recip.phone_number,
            nick: recip.nick,
            admin,
            webirc_password,
            vhost,
            id: false,
            wa_mode: recip.whatsapp,
            admin_is_online: true,
            connected: false,
            presence: None,
            channels: Vec::new(),
        };
        assert(c@.vhost =~= vhost_of(recip.phone_number@, vhost_suffix@));
        assert(c@.channels =~= seq![]);
        c
    }

    /// The nickname this contact currently holds on IRC.
    pub fn nick(&self) -> (r: &String)
        ensures
            r@ == self@.nick,
    {
        &self.nick
    }

    /// Whether messages from the administrator go out over WhatsApp.
    pub fn wa_mode(&self) -> (r: bool)
        ensures
            r == self@.wa_mode,
    {
        self.wa_mode
    }

    /// Whether the administrator was last seen online.
    pub fn admin_is_online(&self) -> (r: bool)
        ensures
            r == self@.admin_is_online,
    {
        self.admin_is_online
    }

    /// Whether registration on IRC is complete.
    pub fn connected(&self) -> (r: bool)
        ensures
            r == self@.connected,
    {
        self.connected
    }

    /// The channels joined at the last group sync.
    pub fn channels(&self) -> (r: &Vec<String>)
        ensures
            strs_view(r@) == self@.channels,
    {
        &self.channels
    }

    /// Reports an error to the administrator, as a notice.
    pub fn report_error(&self, err: String) -> (a: Action)
        ensures
            a@ == (ActionView::Notice { to: self@.admin, text: err@ }),
    {
        Action::Notice { to: self.admin.clone(), text: err }
    }

    /// Where text that arrives for this contact is sent: the administrator.
    pub fn private_target(&self) -> (r: String)
        ensures
            r@ == self@.admin,
    {
        self.admin.clone()
    }

    /// A message from this contact to `to`.
    pub fn send_irc_message(&self, to: String, text: String) -> (a: Action)
        ensures
            a@ == (ActionView::Privmsg { to: to@, text: text@ }),
    {
        Action::Privmsg { to, text }
    }

    /// The first step of every turn: register on IRC, once.
    pub fn identify(&mut self) -> (acts: Vec<Action>)
        ensures
            !old(self)@.id ==> final(self)@ == (ContactView { id: true, ..old(self)@ })
                && actions_view(acts@) == identify_plan(old(self)@),
            old(self)@.id ==> final(self)@ == old(self)@ && acts@.len() == 0,
    {
        let mut acts: Vec<Action> = Vec::new();
        if !self.id {
            match &self.webirc_password {
                Some(pw) => {
                    acts.push(Action::Webirc { password: pw.clone(), vhost: self.vhost.clone() });
                },
                None => {},
            }
            acts.push(Action::Identify);
            self.id = true;
            assert(actions_view(acts@) =~= identify_plan(old(self)@));
        }
        acts
    }

    fn process_messages(&self) -> (acts: Vec<Action>)
        ensures
            actions_view(acts@) == fetch_messages_plan(self@),
    {
        let mut acts: Vec<Action> = Vec::new();
        if self.connected && self.admin_is_online {
            acts.push(Action::FetchMessages);
        }
        assert(actions_view(acts@) =~= fetch_messages_plan(self@));
        acts
    }

    fn process_groups(&self) -> (acts: Vec<Action>)
        ensures
            actions_view(acts@) == fetch_groups_plan(self@),
    {
        let mut acts: Vec<Action> = Vec::new();
        if self.connected {
            acts.push(Action::FetchGroups);
        }
        assert(actions_view(acts@) =~= fetch_groups_plan(self@));
        acts
    }

    fn update_away(&self) -> (acts: Vec<Action>)
        ensures
            actions_view(acts@) == away_plan(self@),
    {
        let mut acts: Vec<Action> = Vec::new();
        if self.connected {
            acts.push(Action::Away(self.presence.clone()));
        }
        assert(actions_view(acts@) =~= away_plan(self@));
        acts
    }

    fn initialize_watch(&self) -> (a: Action)
        ensures
            a@ == ActionView::Watch(watch_arg(self@.admin)),
    {
        let mut arg = to_string("+");
        arg.append(self.admin.as_str());
        Action::Watch(arg)
    }

    fn change_nick(&self, nick: String, src: i32) -> (acts: Vec<Action>)
        ensures
            actions_view(acts@) == seq![ActionView::SaveNick { nick: nick@, src }, ActionView::Nick(nick@)],
    {
        let mut acts: Vec<Action> = Vec::new();
        acts.push(Action::SaveNick { nick: nick.clone(), src });
        acts.push(Action::Nick(nick));
        assert(actions_view(acts@) =~= seq![ActionView::SaveNick { nick: nick@, src }, ActionView::Nick(nick@)]);
        acts
    }

    /// Carries out one inbox command.
    pub fn handle_command(&mut self, cmd: ContactCommand) -> (acts: Vec<Action>)
        ensures
            (final(self)@, actions_view(acts@)) == command_outcome(old(self)@, cmd),
    {
        match cmd {
            ContactCommand::ProcessMessages => self.process_messages(),
            ContactCommand::ProcessGroups => self.process_groups(),
            ContactCommand::UpdateAway(p) => {
                self.presence = p;
                self.update_away()
            },
            ContactCommand::ChangeNick(n, src) => self.change_nick(n, src),
            ContactCommand::SetWhatsapp(b) => {
                self.wa_mode = b;
                let mut acts: Vec<Action> = Vec::new();
                acts.push(Action::SaveWaMode(b));
                assert(actions_view(acts@) =~= seq![ActionView::SaveWaMode(b)]);
                acts
            },
        }
    }

    /// Reacts to one IRC event. `ERROR` from the server is fatal.
    pub fn handle_irc_message(&mut self, ev: IrcEvent) -> (r: Result<Vec<Action>, ContactError>)
        ensures
            r is Err <==> ev is Error,
            match r {
                Ok(acts) => (final(self)@, actions_view(acts@)) == irc_outcome(old(self)@, ev),
                Err(_) => final(self)@ == old(self)@,
            },
    {
        let mut acts: Vec<Action> = Vec::new();
        match ev {
            IrcEvent::EndOfMotd => {
                self.connected = true;
                let mut a = self.process_messages();
                acts.append(&mut a);
                acts.push(self.initialize_watch());
                let mut b = self.update_away();
                acts.append(&mut b);
                let mut c = self.process_groups();
                acts.append(&mut c);
                proof {
                    let t = self@;
                    assert(actions_view(acts@) =~= fetch_messages_plan(t) + seq![
                        ActionView::Watch(watch_arg(t.admin)),
                    ] + away_plan(t) + fetch_groups_plan(t));
                }
            },
            IrcEvent::Nick { sender, new_nick } => {
                match sender {
                    Some(f) => {
                        if f.eq(&self.nick) {
                            self.nick = new_nick;
                        }
                    },
                    None => {},
                }
            },
            IrcEvent::Privmsg { sender, target, text } => {
                match sender {
                    Some(f) => {
                        if !f.eq(&self.admin) {
                            acts.push(Action::Notice { to: f, text: to_string(NOT_ADMIN_NOTICE) });
                        } else if target.eq(&self.nick) {
                            if self.wa_mode {
                                acts.push(Action::SendWhatsapp(text));
                            } else {
                                acts.push(Action::SendModem(text));
                            }
                        }
                    },
                    None => {},
                }
            },
            IrcEvent::Raw { command, args } => {
                if args.len() >= 2 {
                    if same_text(&command, "600") || same_text(&command, "604") {
                        if args[1].eq(&self.admin) && !self.admin_is_online {
                            self.admin_is_online = true;
                            acts = self.process_messages();
                        }
                    } else if same_text(&command, "601") || same_text(&command, "605") {
                        if args[1].eq(&self.admin) {
                            self.admin_is_online = false;
                        }
                    }
                }
            },
            IrcEvent::UnknownCommand { args } => {
                if args.len() == 2 && same_text(&args[1], "WATCH") {
                    acts.push(Action::WatchUnsupported);
                }
            },
            IrcEvent::Error(msg) => {
                return Err(ContactError::Server(msg));
            },
            IrcEvent::Other => {},
        }
        assert(actions_view(acts@) =~= irc_outcome(old(self)@, ev).1);
        Ok(acts)
    }

    /// Delivers the queued messages `msgs` (read from the store, oldest
    /// first) to the administrator. Nothing happens unless the contact is
    /// registered and the administrator is online. Every message that can be
    /// delivered is delivered and then deleted; the transport mode follows the
    /// messages, and each switch is persisted and announced.
    pub fn deliver_messages(&mut self, msgs: &Vec<Message>) -> (acts: Vec<Action>)
        ensures
            old(self)@.connected && old(self)@.admin_is_online ==> {
                &&& final(self)@ == (ContactView { wa_mode: mode_through(old(self)@.wa_mode, msgs@), ..old(self)@ })
                &&& actions_view(acts@) == delivery_plan(old(self)@.wa_mode, old(self)@.admin, msgs@)
            },
            !(old(self)@.connected && old(self)@.admin_is_online) ==> final(self)@ == old(self)@ && acts@.len()
                == 0,
    {
        let mut acts: Vec<Action> = Vec::new();
        if !(self.connected && self.admin_is_online) {
            return acts;
        }
        let ghost s0 = self@;
        let mut i: usize = 0;
        while i < msgs.len()
            invariant
                i <= msgs@.len(),
                self@ == (ContactView { wa_mode: mode_through(s0.wa_mode, msgs@.take(i as int)), ..s0 }),
                actions_view(acts@) == delivery_plan(s0.wa_mode, s0.admin, msgs@.take(i as int)),
            decreases msgs.len() - i,
        {
            let m = &msgs[i];
            let ghost wa = self.wa_mode;
            let ghost before = acts@;
            assert(msgs@.take(i + 1).drop_last() == msgs@.take(i as int));
            assert(msgs@.take(i + 1).last() == *m);
            match &m.pdu {
                Some(b) => {
                    match decode_pdu(b.as_slice()) {
                        Ok(pdu) => {
                            if self.wa_mode {
                                self.wa_mode = false;
                                acts.push(Action::SaveWaMode(false));
                                acts.push(Action::Notice { to: self.admin.clone(), text: to_string(SMS_MODE_NOTICE) });
                            }
                            acts.push(Action::DeliverSms { id: m.id, pdu });
                            acts.push(Action::DeleteMessage(m.id));
                        },
                        Err(_) => {
                            acts.push(Action::Notice { to: self.admin.clone(), text: to_string(UNDECODABLE_NOTICE) });
                        },
                    }
                },
                None => {
                    if !self.wa_mode {
                        self.wa_mode = true;
                        acts.push(Action::SaveWaMode(true));
                        acts.push(Action::Notice { to: self.admin.clone(), text: to_string(WA_MODE_NOTICE) });
                    }
                    let text = match &m.text {
                        Some(t) => t.clone(),
                        None => String::new(),
                    };
                    acts.push(Action::DeliverText { id: m.id, text });
                    acts.push(Action::DeleteMessage(m.id));
                },
            }
            assert(actions_view(acts@) =~= actions_view(before) + delivery_step(wa, s0.admin, *m));
            i = i + 1;
        }
        assert(msgs@.take(msgs@.len() as int) =~= msgs@);
        acts
    }

    /// Brings the channels this contact has joined in line with `current`,
    /// the channels of the groups it belongs to now: joins each of them, parts
    /// each previously joined channel that is not among them, and remembers
    /// `current`. Nothing happens before registration.
    pub fn reconcile_groups(&mut self, current: Vec<String>) -> (acts: Vec<Action>)
        ensures
            old(self)@.connected ==> {
                &&& final(self)@ == (ContactView { channels: strs_view(current@), ..old(self)@ })
                &&& actions_view(acts@) == joins_plan(strs_view(current@)) + parts_plan(
                    old(self)@.channels,
                    strs_view(current@),
                )
            },
            !old(self)@.connected ==> final(self)@ == old(self)@ && acts@.len() == 0,
    {
        let mut acts: Vec<Action> = Vec::new();
        if !self.connected {
            return acts;
        }
        let ghost cur = strs_view(current@);
        let mut i: usize = 0;
        while i < current.len()
            invariant
                i <= current@.len(),
                cur == strs_view(current@),
                actions_view(acts@) == joins_plan(cur.take(i as int)),
            decreases current.len() - i,
        {
            let ghost before = acts@;
            let c = current[i].clone();
            proof {
                lemma_views_push(before, Action::Join(c));
            }
            acts.push(Action::Join(c));
            assert(cur.take(i + 1) =~= cur.take(i as int).push(current@[i as int]@));
            assert(joins_plan(cur.take(i + 1)) =~= joins_plan(cur.take(i as int)).push(ActionView::Join(c@)));
            i = i + 1;
            assert(actions_view(acts@) =~= joins_plan(cur.take(i as int)));
        }
        assert(cur.take(cur.len() as int) =~= cur);
        let ghost joined = acts@;
        let ghost prev = strs_view(self.channels@);
        let mut k: usize = 0;
        while k < self.channels.len()
            invariant
                k <= self.channels@.len(),
                cur == strs_view(current@),
                prev == strs_view(self.channels@),
                actions_view(acts@) == actions_view(joined) + parts_plan(prev.take(k as int), cur),
            decreases self.channels.len() - k,
        {
            let ghost before = acts@;
            let ch = &self.channels[k];
            assert(prev.take(k + 1).drop_last() =~= prev.take(k as int));
            assert(prev.take(k + 1).last() == ch@);
            if !contains_text(&current, ch) {
                let c = ch.clone();
                proof {
                    lemma_views_push(before, Action::Part(c));
                }
                acts.push(Action::Part(c));
            }
            k = k + 1;
            assert(actions_view(acts@) =~= actions_view(joined) + parts_plan(prev.take(k as int), cur));
        }
        assert(prev.take(prev.len() as int) =~= prev);
        self.channels = current;
        acts
    }
}

} // verus!
