//! Choosing credentials for a camera from the entries of a credential file.

use vstd::prelude::*;
use crate::text::equals;

verus! {

/// One entry of a credential file: a user name, a password, and the serial
/// numbers of the cameras it is meant for (empty: any camera).
#[derive(Debug)]
pub struct Credentials {
    pub user: String,
    pub pass: String,
    pub serial: Vec<String>,
}

/// Whether the serial number `wanted` is one of `serials`.
pub open spec fn lists_serial(serials: Seq<String>, wanted: Seq<char>) -> bool {
    exists|i: int| 0 <= i < serials.len() && #[trigger] serials[i]@ == wanted
}

/// Whether an entry applies: when a serial number is asked for and the entry
/// names serial numbers, the asked one must be among them; otherwise every
/// entry applies.
pub open spec fn applies(cred: Credentials, serial: Option<Seq<char>>) -> bool {
    (serial is Some && cred.serial@.len() > 0) ==> lists_serial(cred.serial@, serial->0)
}

/// The user name and password of the first entry that applies, if any.
pub open spec fn first_applicable(creds: Seq<Credentials>, serial: Option<Seq<char>>) -> Option<
    (Seq<char>, Seq<char>),
>
    decreases creds.len(),
{
    if creds.len() == 0 {
        None
    } else if applies(creds[0], serial) {
        Some((creds[0].user@, creds[0].pass@))
    } else {
        first_applicable(creds.drop_first(), serial)
    }
}

fn lists_serial_exec(serials: &Vec<String>, wanted: &String) -> (res: bool)
    ensures
        res == lists_serial(serials@, wanted@),
{
    let n = serials.len();
    let mut i: usize = 0;
    while i < n
        invariant
            n == serials@.len(),
            i <= n,
            forall|j: int| 0 <= j < i ==> serials@[j]@ != wanted@,
        decreases n - i,
    {
        if equals(serials[i].as_str(), wanted.as_str()) {
            return true;
        }
        i = i + 1;
    }
    false
}

/// Returns the user name and password of the first entry of `cred_file`
/// that applies to the camera with serial number `serial` (any camera when
/// `None`), or `None` when no entry applies.
pub fn select_credentials(cred_file: &Vec<Credentials>, serial: &Option<String>) -> (res: Option<
    (String, String),
>)
    ensures
        match res {
            Some((user, pass)) => first_applicable(cred_file@, serial.deep_view()) == Some(
                (user@, pass@),
            ),
            None => first_applicable(cred_file@, serial.deep_view()) is None,
        },
{
    let n = cred_file.len();
    let mut i: usize = 0;
    proof {
        assert(cred_file@.skip(0) =~= cred_file@);
    }
    while i < n
        invariant
            n == cred_file@.len(),
            i <= n,
            first_applicable(cred_file@, serial.deep_view()) == first_applicable(
                cred_file@.skip(i as int),
                serial.deep_view(),
            ),
        decreases n - i,
    {
        let cred = &cred_file[i];
        proof {
            let rest = cred_file@.skip(i as int);
            assert(rest[0] == cred_file@[i as int]);
            assert(rest.drop_first() =~= cred_file@.skip(i + 1));
        }
        let applicable = match serial {
            Some(wanted) => {
                if cred.serial.len() > 0 {
                    lists_serial_exec(&cred.serial, wanted)
                } else {
                    true
                }
            },
            None => true,
        };
        if applicable {
            return Some((cred.user.clone(), cred.pass.clone()));
        }
        i = i + 1;
    }
    None
}

/// The first entry that applies is the one chosen: a choice is the entry at
/// some index `k` that applies, and no entry before `k` applies; no choice is
/// made only when no entry applies.
pub proof fn lemma_first_applicable_is_first(creds: Seq<Credentials>, serial: Option<Seq<char>>)
    ensures
        first_applicable(creds, serial) is None <==> (forall|i: int|
            0 <= i < creds.len() ==> !#[trigger] applies(creds[i], serial)),
        first_applicable(creds, serial) matches Some(choice) ==> exists|k: int|
            0 <= k < creds.len() && #[trigger] applies(creds[k], serial) && choice == (
                creds[k].user@,
                creds[k].pass@,
            ) && forall|j: int| 0 <= j < k ==> !#[trigger] applies(creds[j], serial),
    decreases creds.len(),
{
    if creds.len() > 0 {
        let rest = creds.drop_first();
        lemma_first_applicable_is_first(rest, serial);
        assert forall|i: int| 0 < i < creds.len() implies creds[i] == rest[i - 1] by {}
        if !applies(creds[0], serial) {
            if let Some(choice) = first_applicable(rest, serial) {
                let k = choose|k: int|
                    0 <= k < rest.len() && #[trigger] applies(rest[k], serial) && choice == (
                        rest[k].user@,
                        rest[k].pass@,
                    ) && forall|j: int| 0 <= j < k ==> !#[trigger] applies(rest[j], serial);
                assert(creds[k + 1] == rest[k]);
                assert forall|j: int| 0 <= j < k + 1 implies !#[trigger] applies(creds[j], serial) by {
                    if j > 0 {
                        assert(creds[j] == rest[j - 1]);
                    }
                }
            } else {
                assert forall|i: int| 0 <= i < creds.len() implies !#[trigger] applies(
                    creds[i],
                    serial,
                ) by {
                    if i > 0 {
                        assert(creds[i] == rest[i - 1]);
                    }
                }
            }
        }
    }
}

/// Without a serial number to match, the first entry of the file is chosen
/// (nothing when the file is empty).
pub proof fn lemma_no_serial_takes_first_entry(creds: Seq<Credentials>)
    ensures
        creds.len() == 0 ==> first_applicable(creds, None) is None,
        creds.len() > 0 ==> first_applicable(creds, None) == Some((creds[0].user@, creds[0].pass@)),
{
}

/// An entry that names no serial numbers applies to every camera.
pub proof fn lemma_entry_without_serials_applies(cred: Credentials, serial: Option<Seq<char>>)
    requires
        cred.serial@.len() == 0,
    ensures
        applies(cred, serial),
{
}

/// When a serial number is asked for, an entry that names serial numbers
/// applies exactly when the asked one equals one of them, at any position
/// of the list; an entry that names none applies to every camera, and every
/// entry applies when no serial number is asked for.
pub proof fn lemma_applies_exactly_when_serial_listed(cred: Credentials, serial: Seq<char>)
    ensures
        cred.serial@.len() > 0 ==> (applies(cred, Some(serial)) <==> exists|i: int|
            0 <= i < cred.serial@.len() && #[trigger] cred.serial@[i]@ == serial),
        cred.serial@.len() == 0 ==> applies(cred, Some(serial)),
        applies(cred, None),
{
}

/// An entry listing the asked serial number is chosen when no entry before
/// it applies, whatever the position of the serial number in its list.
pub proof fn lemma_entry_listing_serial_is_chosen(
    creds: Seq<Credentials>,
    serial: Seq<char>,
    k: int,
    i: int,
)
    requires
        0 <= k < creds.len(),
        0 <= i < creds[k].serial@.len(),
        creds[k].serial@[i]@ == serial,
        forall|j: int| 0 <= j < k ==> !#[trigger] applies(creds[j], Some(serial)),
    ensures
        first_applicable(creds, Some(serial)) == Some((creds[k].user@, creds[k].pass@)),
{
    lemma_applies_exactly_when_serial_listed(creds[k], serial);
    lemma_first_applicable_is_first(creds, Some(serial));
    if let Some(choice) = first_applicable(creds, Some(serial)) {
        let m = choose|m: int|
            0 <= m < creds.len() && #[trigger] applies(creds[m], Some(serial)) && choice == (
                creds[m].user@,
                creds[m].pass@,
            ) && forall|j: int| 0 <= j < m ==> !#[trigger] applies(creds[j], Some(serial));
        if m < k {
            assert(!applies(creds[m], Some(serial)));
        } else if m > k {
            assert(!applies(creds[k], Some(serial)));
        }
    } else {
        assert(!applies(creds[k], Some(serial)));
    }
}

} // verus!
