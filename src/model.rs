//! Rows of the message store, and the decisions the store makes about them.

use vstd::prelude::*;

verus! {

/// Where a queued message came from.
pub const SOURCE_SMS: i32 = 0;

pub const SOURCE_WA: i32 = 1;

/// Who chose a recipient's nickname.
pub const NICKSRC_AUTO: i32 = 0;

pub const NICKSRC_USER: i32 = 1;

/// The id a row carries before the database has assigned one.
pub const UNSAVED_ID: i64 = -1;

/// A message received from upstream and waiting to be delivered to IRC.
#[derive(Clone, Debug)]
pub struct Message {
    pub id: i64,
    pub phone_number: String,
    pub pdu: Option<Vec<u8>>,
    pub csms_data: Option<i32>,
    pub group_target: Option<i64>,
    pub text: Option<String>,
    pub source: i32,
    /// Seconds since the Unix epoch, UTC.
    pub ts: i64,
}

impl Message {
    /// An SMS carries its PDU; a WhatsApp message carries its text.
    pub open spec fn wf(&self) -> bool {
        &&& self.source == SOURCE_SMS ==> self.pdu is Some
        &&& self.source == SOURCE_WA ==> self.text is Some
    }

    /// The unsaved row for an incoming SMS.
    pub fn new_sms(phone_number: String, pdu: Vec<u8>, csms_data: Option<i32>, ts: i64) -> (m: Message)
        ensures
            m.wf(),
            m.id == UNSAVED_ID,
            m.phone_number == phone_number,
            m.pdu == Some(pdu),
            m.csms_data == csms_data,
            m.group_target is None,
            m.text is None,
            m.source == SOURCE_SMS,
            m.ts == ts,
    {
        Message {
            id: UNSAVED_ID,
            phone_number,
            pdu: Some(pdu),
            csms_data,
            group_target: None,
            text: None,
            source: SOURCE_SMS,
            ts,
        }
    }

    /// The unsaved row for an incoming WhatsApp message.
    pub fn new_wa(phone_number: String, text: String, group_target: Option<i64>, ts: i64) -> (m: Message)
        ensures
            m.wf(),
            m.id == UNSAVED_ID,
            m.phone_number == phone_number,
            m.pdu is None,
            m.csms_data is None,
            m.group_target == group_target,
            m.text == Some(text),
            m.source == SOURCE_WA,
            m.ts == ts,
    {
        Message {
            id: UNSAVED_ID,
            phone_number,
            pdu: None,
            csms_data: None,
            group_target,
            text: Some(text),
            source: SOURCE_WA,
            ts,
        }
    }
}

/// A remote correspondent, projected into IRC under `nick`.
#[derive(Clone, Debug)]
pub struct Recipient {
    pub id: i64,
    pub phone_number: String,
    pub nick: String,
    pub whatsapp: bool,
    pub avatar_url: Option<String>,
    pub notify: Option<String>,
    pub nicksrc: i32,
}

impl Recipient {
    /// The unsaved row for a correspondent first seen by SMS.
    pub fn new_sms(phone_number: String, nick: String) -> (r: Recipient)
        ensures
            r.id == UNSAVED_ID,
            r.phone_number == phone_number,
            r.nick == nick,
            !r.whatsapp,
            r.avatar_url is None,
            r.notify is None,
            r.nicksrc == NICKSRC_AUTO,
    {
        Recipient {
            id: UNSAVED_ID,
            phone_number,
            nick,
            whatsapp: false,
            avatar_url: None,
            notify: None,
            nicksrc: NICKSRC_AUTO,
        }
    }

    /// The unsaved row for a correspondent first seen on WhatsApp.
    pub fn new_wa(phone_number: String, nick: String, notify: Option<String>, nicksrc: i32) -> (r: Recipient)
        ensures
            r.id == UNSAVED_ID,
            r.phone_number == phone_number,
            r.nick == nick,
            r.whatsapp,
            r.avatar_url is None,
            r.notify == notify,
            r.nicksrc == nicksrc,
    {
        Recipient {
            id: UNSAVED_ID,
            phone_number,
            nick,
            whatsapp: true,
            avatar_url: None,
            notify,
            nicksrc,
        }
    }
}

/// One member of one group chat.
#[derive(Clone, Copy, Debug, PartialEq, Eq, Structural)]
pub struct GroupMembership {
    pub group_id: i64,
    pub user_id: i64,
    pub is_admin: bool,
}

/// The membership a group has after a sync with `members` and `admins`.
pub open spec fn membership_of(group_id: i64, members: Seq<i64>, admins: Seq<i64>) -> Seq<GroupMembership> {
    members.map_values(|m: i64| GroupMembership { group_id, user_id: m, is_admin: admins.contains(m) })
}

/// Whether `x` occurs in `v`.
fn contains_id(v: &Vec<i64>, x: i64) -> (r: bool)
    ensures
        r == v@.contains(x),
{
    let mut i: usize = 0;
    while i < v.len()
        invariant
            i <= v.len(),
            forall|j: int| 0 <= j < i ==> v@[j] != x,
        decreases v.len() - i,
    {
        if v[i] == x {
            return true;
        }
        i = i + 1;
    }
    false
}

/// The rows that replace a group's whole membership: one row per member,
/// flagged admin exactly when it is listed in `admins`. The store writes them
/// in one transaction, after deleting the group's old rows.
pub fn membership_rows(group_id: i64, members: &Vec<i64>, admins: &Vec<i64>) -> (rows: Vec<GroupMembership>)
    ensures
        rows@ == membership_of(group_id, members@, admins@),
{
    let mut rows: Vec<GroupMembership> = Vec::new();
    let mut i: usize = 0;
    while i < members.len()
        invariant
            i <= members.len(),
            rows@ == membership_of(group_id, members@.take(i as int), admins@),
        decreases members.len() - i,
    {
        let m = members[i];
        let is_admin = contains_id(admins, m);
        rows.push(GroupMembership { group_id, user_id: m, is_admin });
        assert(members@.take(i + 1) == members@.take(i as int).push(m));
        i = i + 1;
        assert(rows@ =~= membership_of(group_id, members@.take(i as int), admins@));
    }
    assert(members@.take(members.len() as int) =~= members@);
    rows
}

/// Why a store operation was refused.
#[derive(Clone, Copy, Debug, PartialEq, Eq, Structural)]
pub enum StoreError {
    /// A delete matched no row: the caller's view of the store is stale.
    NothingDeleted,
}

/// The verdict on a delete that touched `rows_affected` rows: deleting nothing
/// is an error.
pub fn check_deleted(rows_affected: usize) -> (r: Result<(), StoreError>)
    ensures
        r is Ok <==> rows_affected > 0,
        r is Err ==> r == Err::<(), StoreError>(StoreError::NothingDeleted),
{
    if rows_affected == 0 {
        Err(StoreError::NothingDeleted)
    } else {
        Ok(())
    }
}

} // verus!
