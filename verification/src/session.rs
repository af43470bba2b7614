//! Sign-in, roles and the node link as the desktop handles them: the roles an account can
//! hold, by the names PN-20 offers and the record writes; what a role assignment or a
//! sign-in is refused for; and what the desktop says as it connects to its node and
//! drops the link.
//!
//! Attribution is never invented: with nobody signed in nothing is attributed, and an
//! expired session is said once.

use vstd::prelude::*;
use crate::text::{quoted_name, debug_string, decimal, push_decimal, push_str, str_eq, trim, trimmed, chars_of};

verus! {

/// A role an account can hold.
#[derive(Debug, Clone, Copy, PartialEq, Eq, Structural)]
pub enum Role {
    Operator,
    Supervisor,
    Analyst,
    SensorManager,
    Administrator,
    Commander,
    Planner,
    SecurityOfficer,
    IntelligenceAnalyst,
}

/// The role's name as PN-20 offers it and the record spells it.
pub open spec fn spec_role_name(role: Role) -> Seq<char> {
    match role {
        Role::Operator => "Operator"@,
        Role::Supervisor => "Supervisor"@,
        Role::Analyst => "Analyst"@,
        Role::SensorManager => "SensorManager"@,
        Role::Administrator => "Administrator"@,
        Role::Commander => "Commander"@,
        Role::Planner => "Planner"@,
        Role::SecurityOfficer => "SecurityOfficer"@,
        Role::IntelligenceAnalyst => "IntelligenceAnalyst"@,
    }
}

/// The role a name means, if any.
pub open spec fn spec_role_named(name: Seq<char>) -> Option<Role> {
    if name == "Operator"@ { Some(Role::Operator) }
    else if name == "Supervisor"@ { Some(Role::Supervisor) }
    else if name == "Analyst"@ { Some(Role::Analyst) }
    else if name == "SensorManager"@ { Some(Role::SensorManager) }
    else if name == "Administrator"@ { Some(Role::Administrator) }
    else if name == "Commander"@ { Some(Role::Commander) }
    else if name == "Planner"@ { Some(Role::Planner) }
    else if name == "SecurityOfficer"@ { Some(Role::SecurityOfficer) }
    else if name == "IntelligenceAnalyst"@ { Some(Role::IntelligenceAnalyst) }
    else { None }
}

/// The role's name, as the record writes it.
pub fn role_name(role: Role) -> (name: &'static str)
    ensures
        name@ == spec_role_name(role),
{
    match role {
        Role::Operator => "Operator",
        Role::Supervisor => "Supervisor",
        Role::Analyst => "Analyst",
        Role::SensorManager => "SensorManager",
        Role::Administrator => "Administrator",
        Role::Commander => "Commander",
        Role::Planner => "Planner",
        Role::SecurityOfficer => "SecurityOfficer",
        Role::IntelligenceAnalyst => "IntelligenceAnalyst",
    }
}

/// The role a PN-20 name means, or none.
pub fn role_named(name: &str) -> (role: Option<Role>)
    ensures
        role == spec_role_named(name@),
{
    if str_eq(name, "Operator") { Some(Role::Operator) }
    else if str_eq(name, "Supervisor") { Some(Role::Supervisor) }
    else if str_eq(name, "Analyst") { Some(Role::Analyst) }
    else if str_eq(name, "SensorManager") { Some(Role::SensorManager) }
    else if str_eq(name, "Administrator") { Some(Role::Administrator) }
    else if str_eq(name, "Commander") { Some(Role::Commander) }
    else if str_eq(name, "Planner") { Some(Role::Planner) }
    else if str_eq(name, "SecurityOfficer") { Some(Role::SecurityOfficer) }
    else if str_eq(name, "IntelligenceAnalyst") { Some(Role::IntelligenceAnalyst) }
    else { None }
}

/// Every role is named by its own name: reading a written role name back gives the role.
pub proof fn role_name_round_trip(role: Role)
    ensures
        spec_role_named(spec_role_name(role)) == Some(role),
{
    reveal_strlit("Operator");
    reveal_strlit("Supervisor");
    reveal_strlit("Analyst");
    reveal_strlit("SensorManager");
    reveal_strlit("Administrator");
    reveal_strlit("Commander");
    reveal_strlit("Planner");
    reveal_strlit("SecurityOfficer");
    reveal_strlit("IntelligenceAnalyst");
    assert("Operator"@.len() == 8);
    assert("Supervisor"@.len() == 10);
    assert("Analyst"@.len() == 7);
    assert("SensorManager"@.len() == 13);
    assert("Administrator"@.len() == 13);
    assert("Commander"@.len() == 9);
    assert("Planner"@.len() == 7);
    assert("SecurityOfficer"@.len() == 15);
    assert("IntelligenceAnalyst"@.len() == 19);
    assert("Analyst"@[0] != "Planner"@[0]);
    assert("SensorManager"@[0] != "Administrator"@[0]);
}

/// A name means a role only when it is that role's own name.
pub proof fn role_named_only_by_name(name: Seq<char>)
    ensures
        spec_role_named(name) matches Some(role) ==> name == spec_role_name(role),
{
}

/// Why a role assignment is refused before anything is written: the acting role lacks
/// the assignment action; the name is not a role; or no local account store is
/// configured. Otherwise the role to assign.
pub fn assignment(permitted: bool, acting: Role, action: &str, named: &str, local_accounts: bool) -> (r: Result<Role, String>)
    ensures
        !permitted ==> (r matches Err(m) && m@ == "role assignment refused: "@ + spec_role_name(acting) + " does not hold "@ + action@),
        permitted && spec_role_named(named@) is None ==> (r matches Err(m)
            && m@ == "role assignment refused: "@ + quoted_name(named@) + " is not a role"@),
        permitted && spec_role_named(named@) is Some && !local_accounts ==> (r matches Err(m)
            && m@ == "role assignment refused: no account store is configured"@),
        permitted && local_accounts && spec_role_named(named@) is Some ==> r == Ok::<Role, String>(spec_role_named(named@)->0),
{
    if !permitted {
        let mut m = String::from_str("role assignment refused: ");
        push_str(&mut m, role_name(acting));
        push_str(&mut m, " does not hold ");
        push_str(&mut m, action);
        return Err(m);
    }
    let role = match role_named(named) {
        None => {
            let mut m = String::from_str("role assignment refused: ");
            let quoted = debug_string(named);
            push_str(&mut m, quoted.as_str());
            push_str(&mut m, " is not a role");
            return Err(m);
        },
        Some(role) => role,
    };
    if !local_accounts {
        return Err(String::from_str("role assignment refused: no account store is configured"));
    }
    Ok(role)
}

/// What the desktop says of an assignment: the audit entry, and the alert.
pub fn assigned(operator: u64, role: Role) -> (said: (String, String))
    ensures
        said.0@ == "operator "@ + decimal(operator as nat) + " assigned "@ + spec_role_name(role),
        said.1@ == "operator "@ + decimal(operator as nat) + " is now "@ + spec_role_name(role),
{
    let mut audit = String::from_str("operator ");
    push_decimal(&mut audit, operator);
    push_str(&mut audit, " assigned ");
    push_str(&mut audit, role_name(role));
    let mut alert = String::from_str("operator ");
    push_decimal(&mut alert, operator);
    push_str(&mut alert, " is now ");
    push_str(&mut alert, role_name(role));
    (audit, alert)
}

/// The value of a string of decimal digits.
pub open spec fn digits_value(s: Seq<char>) -> nat
    decreases s.len(),
{
    if s.len() == 0 {
        0
    } else {
        digits_value(s.drop_last()) * 10 + ((s.last() as u32) - ('0' as u32)) as nat
    }
}

/// Whether every character of `s` is a decimal digit.
pub open spec fn all_digits(s: Seq<char>) -> bool {
    forall|k: int| 0 <= k < s.len() ==> '0' <= #[trigger] s[k] <= '9'
}

/// The number an identifier spells, as an unsigned integer is read: an optional leading
/// `+`, then one or more decimal digits, of a value that fits in 64 bits.
pub open spec fn operator_number(s: Seq<char>) -> Option<u64> {
    let digits = if s.len() > 0 && s[0] == '+' { s.drop_first() } else { s };
    if digits.len() > 0 && all_digits(digits) && digits_value(digits) <= u64::MAX {
        Some(digits_value(digits) as u64)
    } else {
        None
    }
}

proof fn digits_value_grows(s: Seq<char>, k: int)
    requires
        0 <= k <= s.len(),
        all_digits(s),
    ensures
        digits_value(s.take(k)) <= digits_value(s),
    decreases s.len() - k,
{
    if k < s.len() {
        digits_value_grows(s, k + 1);
        assert(s.take(k + 1).drop_last() =~= s.take(k));
        assert(s.take(k + 1).last() == s[k]);
    } else {
        assert(s.take(k) =~= s);
    }
}

/// The number an identifier spells, read as an unsigned integer, or `None`.
pub fn parse_operator(s: &str) -> (n: Option<u64>)
    ensures
        n == operator_number(s@),
{
    let cs = chars_of(s);
    let start: usize = if cs.len() > 0 && cs[0] == '+' { 1 } else { 0 };
    let ghost digits = if s@.len() > 0 && s@[0] == '+' { s@.drop_first() } else { s@ };
    assert(digits =~= cs@.skip(start as int));
    if start >= cs.len() {
        return None;
    }
    let mut value: u64 = 0;
    let mut i: usize = start;
    while i < cs.len()
        invariant
            start <= i <= cs@.len(),
            cs@ == s@,
            start == 0 || start == 1,
            digits == (if s@.len() > 0 && s@[0] == '+' { s@.drop_first() } else { s@ }),
            digits == cs@.skip(start as int),
            all_digits(cs@.subrange(start as int, i as int)),
            value as nat == digits_value(cs@.subrange(start as int, i as int)),
        decreases cs@.len() - i,
    {
        let c = cs[i];
        proof {
            let sub = cs@.subrange(start as int, i + 1);
            assert(sub.drop_last() =~= cs@.subrange(start as int, i as int));
            assert(sub.last() == c);
        }
        if c < '0' || c > '9' {
            proof {
                assert(digits[i - start] == c);
            }
            return None;
        }
        let d: u64 = (c as u32 - '0' as u32) as u64;
        if value > 1_844_674_407_370_955_161u64 || (value == 1_844_674_407_370_955_161u64 && d > 5) {
            proof {
                let sub = cs@.subrange(start as int, i + 1);
                assert(digits_value(sub) == value * 10 + d);
                if all_digits(digits) {
                    digits_value_grows(digits, i + 1 - start);
                    assert(digits.take(i + 1 - start) =~= sub);
                }
            }
            return None;
        }
        value = value * 10 + d;
        i = i + 1;
    }
    proof {
        assert(cs@.subrange(start as int, cs@.len() as int) =~= digits);
    }
    Some(value)
}

/// The refusal for an operator identifier that is not a number.
pub open spec fn not_a_number() -> Seq<char> {
    "sign-in refused: the operator identifier is a number"@
}

/// The operator a sign-in names: the identifier typed, trimmed and read as a number, or
/// the refusal that says it must be one.
pub fn sign_in_operator(typed: &str) -> (r: Result<u64, &'static str>)
    ensures
        match r {
            Ok(n) => exists|t: Seq<char>| trimmed(typed@, t) && operator_number(t) == Some(n),
            Err(m) => m@ == not_a_number() && exists|t: Seq<char>| trimmed(typed@, t) && operator_number(t) is None,
        },
{
    let t = trim(typed);
    match parse_operator(t.as_str()) {
        Some(n) => {
            assert(trimmed(typed@, t@) && operator_number(t@) == Some(n));
            Ok(n)
        },
        None => {
            assert(trimmed(typed@, t@) && operator_number(t@) is None);
            Err("sign-in refused: the operator identifier is a number")
        },
    }
}

/// What a sign-in says: who signed in and in what role, or why it was refused.
pub fn sign_in_alert(outcome: Result<(u64, Role), &str>) -> (alert: String)
    ensures
        alert@ == match outcome {
            Ok((operator, role)) => "signed in as operator "@ + decimal(operator as nat) + " ("@ + spec_role_name(role) + ")"@,
            Err(e) => "sign-in refused: "@ + e@,
        },
{
    match outcome {
        Ok((operator, role)) => {
            let mut a = String::from_str("signed in as operator ");
            push_decimal(&mut a, operator);
            push_str(&mut a, " (");
            push_str(&mut a, role_name(role));
            push_str(&mut a, ")");
            a
        },
        Err(e) => {
            let mut a = String::from_str("sign-in refused: ");
            push_str(&mut a, e);
            a
        },
    }
}

/// What a sign-out says: who signed out, when anybody was signed in.
pub fn sign_out_alert(was: Option<u64>) -> (alert: Option<String>)
    ensures
        match was {
            Some(op) => alert matches Some(a) && a@ == "operator "@ + decimal(op as nat) + " signed out"@,
            None => alert is None,
        },
{
    match was {
        Some(op) => {
            let mut a = String::from_str("operator ");
            push_decimal(&mut a, op);
            push_str(&mut a, " signed out");
            Some(a)
        },
        None => None,
    }
}

/// Whether an expiry is announced, given who was last announced.
pub open spec fn announces(announced: Option<u64>, expired: Option<u64>) -> bool {
    expired is Some && announced != expired
}

/// An expired session is said once: announcing an operator's expiry means the same
/// expiry is not announced again on the next sweep, and once nobody's session is expired
/// a later expiry is announced afresh.
pub proof fn an_expiry_is_said_once(announced: Option<u64>, op: u64)
    ensures
        !announces(Some(op), Some(op)),
        announces(None, Some(op)),
        announces(announced, Some(op)) <==> announced != Some(op),
{
}

/// Whether an expired session is to be announced: once per operator whose session
/// expired, and forgotten once nobody's is. Returns whether to announce, and updates who
/// was last announced.
pub fn expiry_due(announced: &mut Option<u64>, expired: Option<u64>) -> (announce: bool)
    ensures
        announce == announces(*old(announced), expired),
        *final(announced) == expired,
        match expired {
            None => !announce && *final(announced) == None::<u64>,
            Some(op) => announce == (*old(announced) != Some(op)) && *final(announced) == Some(op),
        },
{
    match expired {
        None => {
            *announced = None;
            false
        },
        Some(op) => {
            let due = match *announced {
                Some(a) => a != op,
                None => true,
            };
            *announced = Some(op);
            due
        },
    }
}

/// What connecting to the node says: running remote, or why the desktop stays embedded.
pub fn connect_alert(endpoint: &str, outcome: Result<(), &str>) -> (alert: String)
    ensures
        alert@ == match outcome {
            Ok(()) => "connected to node "@ + endpoint@ + "; running remote"@,
            Err(e) => "could not reach node "@ + endpoint@ + ": "@ + e@ + "; running embedded"@,
        },
{
    match outcome {
        Ok(()) => {
            let mut a = String::from_str("connected to node ");
            push_str(&mut a, endpoint);
            push_str(&mut a, "; running remote");
            a
        },
        Err(e) => {
            let mut a = String::from_str("could not reach node ");
            push_str(&mut a, endpoint);
            push_str(&mut a, ": ");
            push_str(&mut a, e);
            push_str(&mut a, "; running embedded");
            a
        },
    }
}

/// The accounts PN-20 lists: each operator with its role's name, or none when the account
/// store could not be read.
pub fn account_lines(accounts: &Result<Vec<(u64, Role)>, String>) -> (lines: Vec<(u64, String)>)
    ensures
        match accounts {
            Err(_) => lines@.len() == 0,
            Ok(list) => lines@.len() == list@.len() && forall|k: int| 0 <= k < list@.len() ==>
                (#[trigger] lines@[k]).0 == list@[k].0 && lines@[k].1@ == spec_role_name(list@[k].1),
        },
{
    let mut lines: Vec<(u64, String)> = Vec::new();
    match accounts {
        Err(_) => {},
        Ok(list) => {
            let mut k: usize = 0;
            while k < list.len()
                invariant
                    k <= list@.len(),
                    lines@.len() == k,
                    forall|j: int| 0 <= j < k ==> (#[trigger] lines@[j]).0 == list@[j].0 && lines@[j].1@ == spec_role_name(list@[j].1),
                decreases list@.len() - k,
            {
                let (op, role) = list[k];
                lines.push((op, String::from_str(role_name(role))));
                k = k + 1;
            }
        },
    }
    lines
}

} // verus!
