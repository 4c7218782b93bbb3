use vstd::prelude::*;

use vstd::string::StringSliceAdditionalSpecFns;
use vstd::utf8::encode_utf8;

use crate::server::error::ServerError;

verus! {

/// The value of a run of ASCII decimal digits.
pub open spec fn digits_value(bytes: Seq<u8>) -> int
    decreases bytes.len(),
{
    if bytes.len() == 0 {
        0
    } else {
        digits_value(bytes.drop_last()) * 10 + (bytes.last() - 48)
    }
}

/// Whether every byte is an ASCII decimal digit.
pub open spec fn all_digits(bytes: Seq<u8>) -> bool {
    forall|i: int| 0 <= i < bytes.len() ==> 48 <= #[trigger] bytes[i] <= 57
}

/// The unsigned decimal a text denotes: an optional `+`, then one or more digits, within `u64`.
pub open spec fn decimal_u64(bytes: Seq<u8>) -> Option<u64> {
    let body = if bytes.len() > 0 && bytes[0] == 43 { bytes.drop_first() } else { bytes };
    if body.len() == 0 || !all_digits(body) || digits_value(body) > u64::MAX {
        None
    } else {
        Some(digits_value(body) as u64)
    }
}

proof fn lemma_digits_value_grows(bytes: Seq<u8>, i: int)
    requires
        0 <= i <= bytes.len(),
        all_digits(bytes),
    ensures
        digits_value(bytes.take(i)) <= digits_value(bytes),
        0 <= digits_value(bytes.take(i)),
    decreases bytes.len() - i,
{
    if i < bytes.len() {
        lemma_digits_value_grows(bytes, i + 1);
        assert(bytes.take(i + 1).drop_last() == bytes.take(i));
        assert(all_digits(bytes.take(i + 1)));
    } else {
        assert(bytes.take(i) == bytes);
        lemma_digits_value_nonnegative(bytes);
    }
}

proof fn lemma_digits_value_nonnegative(bytes: Seq<u8>)
    requires
        all_digits(bytes),
    ensures
        0 <= digits_value(bytes),
    decreases bytes.len(),
{
    if bytes.len() > 0 {
        assert(all_digits(bytes.drop_last()));
        lemma_digits_value_nonnegative(bytes.drop_last());
    }
}

/// Parses an unsigned decimal as `u64::from_str` does.
pub fn parse_u64(text: &str) -> (r: Option<u64>)
    ensures
        r == decimal_u64(text.spec_bytes()),
{
    let bytes = text.as_bytes();
    let ghost all = bytes@;
    let start: usize = if bytes.len() > 0 && bytes[0] == 43 { 1 } else { 0 };
    let ghost body = if all.len() > 0 && all[0] == 43 { all.drop_first() } else { all };
    assert(body == all.subrange(start as int, all.len() as int));
    if bytes.len() == start {
        return None;
    }
    let mut value: u64 = 0;
    let mut i: usize = start;
    while i < bytes.len()
        invariant
            bytes@ == all,
            all == text.spec_bytes(),
            body == (if all.len() > 0 && all[0] == 43 { all.drop_first() } else { all }),
            start <= i <= all.len(),
            body == all.subrange(start as int, all.len() as int),
            all_digits(body.take(i - start)),
            value == digits_value(body.take(i - start)),
        decreases all.len() - i,
    {
        let b = bytes[i];
        let ghost k = i - start;
        assert(body.take(k + 1).drop_last() == body.take(k));
        assert(body[k] == b);
        if b < 48 || b > 57 {
            assert(!all_digits(body));
            return None;
        }
        assert(all_digits(body.take(k + 1)));
        let next = match value.checked_mul(10) {
            Some(v) => v.checked_add((b - 48) as u64),
            None => None,
        };
        match next {
            Some(v) => {
                value = v;
            },
            None => {
                proof {
                    if all_digits(body) {
                        lemma_digits_value_grows(body, k + 1);
                    }
                }
                return None;
            },
        }
        i = i + 1;
    }
    assert(body.take(i - start) == body);
    Some(value)
}

/// A positive `u64` argument.
pub open spec fn positive_u64(bytes: Seq<u8>) -> Option<u64> {
    match decimal_u64(bytes) {
        Some(v) => if v == 0 { None } else { Some(v) },
        None => None,
    }
}

fn parse_positive(text: &String) -> (r: Option<u64>)
    ensures
        r == positive_u64(encode_utf8(text@)),
{
    match parse_u64(text.as_str()) {
        Some(v) => if v == 0 { None } else { Some(v) },
        None => None,
    }
}

/// What the operator's `registry` command asks for.
#[derive(Debug, PartialEq, Eq)]
pub enum RegistryTailV1 {
    List,
    Audit,
    ShowWorker { worker_id: String },
    ShowCredential { credential_id: String },
}

/// What the operator's `credential` command asks for.
#[derive(Debug, PartialEq, Eq)]
pub enum CredentialTailV1 {
    Revoke { command_id: String },
    Rotate { ttl_ms: u64, output: String },
}

/// What the operator's `worker` command asks for.
#[derive(Debug, PartialEq, Eq)]
pub enum WorkerTailV1 {
    Disable { command_id: String },
    Enable { command_id: String },
    /// The pool is validated before the command identity is read.
    SetPool { pool: String, command_id: Option<String> },
}

/// One controller command line. Identities and names stay text for the caller to parse; a
/// `None` part is a usage error the caller reports only after the checks that precede it.
#[derive(Debug, PartialEq, Eq)]
pub enum ServerCommandV1 {
    /// `model resolve <catalog> <template> <alias> <output>`; the alias is validated first.
    ModelResolve { catalog: String, template: String, alias: String, output: Option<String> },
    /// `reservation release <config> <reservation-id> <command-id>`.
    ReservationRelease { config: String, reservation_id: String, command_id: String },
    /// `registry <action> <config> ...`; the configuration is loaded before the action is read.
    Registry { config: String, tail: Option<RegistryTailV1> },
    /// `enrollment revoke <config> <enrollment-id> <command-id>`.
    EnrollmentRevoke { config: String, enrollment_id: String, command_id: String },
    /// `enrollment create <config> <pool> <ttl-ms> <bundle>`; the pool is validated first.
    EnrollmentCreate { config: String, pool: String, rest: Option<(u64, String)> },
    /// `credential <action> <config> <credential-id> ...`; the configuration is loaded before the
    /// action is read.
    Credential { config: String, credential_id: String, tail: Option<CredentialTailV1> },
    /// `worker <action> <config> <worker-id> ...`; the configuration is loaded before the action
    /// is read.
    Worker { config: String, worker_id: String, tail: Option<WorkerTailV1> },
    /// `<config>`: run the controller.
    Run { config: String },
}

/// Whether an argument is the given word.
pub open spec fn is_word(argument: String, word: &str) -> bool {
    argument@ == word@
}

/// The arguments from position `from` onward, when exactly `count` of them remain.
pub open spec fn exactly(args: Seq<String>, from: int, count: int) -> bool {
    args.len() == from + count
}

/// The controller command a full argument vector (program name first) names, or `None` for a
/// usage error.
pub open spec fn command_of(args: Seq<String>) -> Option<ServerCommandV1> {
    if args.len() < 2 {
        None
    } else {
        let first = args[1];
        if is_word(first, "model") {
            if args.len() < 6 || !is_word(args[2], "resolve") {
                None
            } else {
                Some(ServerCommandV1::ModelResolve {
                    catalog: args[3],
                    template: args[4],
                    alias: args[5],
                    output: if exactly(args, 6, 1) { Some(args[6]) } else { None },
                })
            }
        } else if is_word(first, "reservation") {
            if args.len() < 3 || !is_word(args[2], "release") || !exactly(args, 3, 3) {
                None
            } else {
                Some(ServerCommandV1::ReservationRelease { config: args[3], reservation_id: args[4], command_id: args[5] })
            }
        } else if is_word(first, "registry") {
            if args.len() < 4 {
                None
            } else {
                let action = args[2];
                Some(ServerCommandV1::Registry {
                    config: args[3],
                    tail: if (is_word(action, "list") || is_word(action, "audit")) && exactly(args, 4, 0) {
                        Some(if is_word(action, "list") { RegistryTailV1::List } else { RegistryTailV1::Audit })
                    } else if is_word(action, "show-worker") && exactly(args, 4, 1) {
                        Some(RegistryTailV1::ShowWorker { worker_id: args[4] })
                    } else if is_word(action, "show-credential") && exactly(args, 4, 1) {
                        Some(RegistryTailV1::ShowCredential { credential_id: args[4] })
                    } else {
                        None
                    },
                })
            }
        } else if is_word(first, "enrollment") {
            if args.len() < 4 {
                None
            } else if is_word(args[2], "revoke") {
                if exactly(args, 4, 2) {
                    Some(ServerCommandV1::EnrollmentRevoke { config: args[3], enrollment_id: args[4], command_id: args[5] })
                } else {
                    None
                }
            } else if !is_word(args[2], "create") || args.len() < 5 {
                None
            } else {
                Some(ServerCommandV1::EnrollmentCreate {
                    config: args[3],
                    pool: args[4],
                    rest: if exactly(args, 5, 2) && positive_u64(encode_utf8(args[5]@)) is Some {
                        Some((positive_u64(encode_utf8(args[5]@))->0, args[6]))
                    } else {
                        None
                    },
                })
            }
        } else if is_word(first, "credential") {
            if args.len() < 5 {
                None
            } else {
                let action = args[2];
                Some(ServerCommandV1::Credential {
                    config: args[3],
                    credential_id: args[4],
                    tail: if is_word(action, "revoke") && exactly(args, 5, 1) {
                        Some(CredentialTailV1::Revoke { command_id: args[5] })
                    } else if is_word(action, "rotate") && exactly(args, 5, 2) && positive_u64(encode_utf8(args[5]@)) is Some {
                        Some(CredentialTailV1::Rotate { ttl_ms: positive_u64(encode_utf8(args[5]@))->0, output: args[6] })
                    } else {
                        None
                    },
                })
            }
        } else if is_word(first, "worker") {
            if args.len() < 5 {
                None
            } else {
                let action = args[2];
                Some(ServerCommandV1::Worker {
                    config: args[3],
                    worker_id: args[4],
                    tail: if is_word(action, "disable") && exactly(args, 5, 1) {
                        Some(WorkerTailV1::Disable { command_id: args[5] })
                    } else if is_word(action, "enable") && exactly(args, 5, 1) {
                        Some(WorkerTailV1::Enable { command_id: args[5] })
                    } else if is_word(action, "set-pool") && args.len() >= 6 {
                        Some(WorkerTailV1::SetPool {
                            pool: args[5],
                            command_id: if exactly(args, 6, 1) { Some(args[6]) } else { None },
                        })
                    } else {
                        None
                    },
                })
            }
        } else if exactly(args, 2, 0) {
            Some(ServerCommandV1::Run { config: first })
        } else {
            None
        }
    }
}

fn word(argument: &String, expected: &str) -> (r: bool)
    ensures
        r == is_word(*argument, expected),
{
    *argument == expected.to_owned()
}

/// Parses the controller command line (program name first).
pub fn parse_server_arguments(args: &Vec<String>) -> (r: Result<ServerCommandV1, ServerError>)
    ensures
        r == match command_of(args@) {
            Some(c) => Ok::<ServerCommandV1, ServerError>(c),
            None => Err(ServerError::Usage),
        },
{
    let n = args.len();
    if n < 2 {
        return Err(ServerError::Usage);
    }
    let first = &args[1];
    if word(first, "model") {
        if n < 6 || !word(&args[2], "resolve") {
            return Err(ServerError::Usage);
        }
        return Ok(ServerCommandV1::ModelResolve {
            catalog: args[3].clone(),
            template: args[4].clone(),
            alias: args[5].clone(),
            output: if n == 7 { Some(args[6].clone()) } else { None },
        });
    }
    if word(first, "reservation") {
        if n < 3 || !word(&args[2], "release") || n != 6 {
            return Err(ServerError::Usage);
        }
        return Ok(ServerCommandV1::ReservationRelease {
            config: args[3].clone(),
            reservation_id: args[4].clone(),
            command_id: args[5].clone(),
        });
    }
    if word(first, "registry") {
        if n < 4 {
            return Err(ServerError::Usage);
        }
        let action = &args[2];
        let tail = if (word(action, "list") || word(action, "audit")) && n == 4 {
            Some(if word(action, "list") { RegistryTailV1::List } else { RegistryTailV1::Audit })
        } else if word(action, "show-worker") && n == 5 {
            Some(RegistryTailV1::ShowWorker { worker_id: args[4].clone() })
        } else if word(action, "show-credential") && n == 5 {
            Some(RegistryTailV1::ShowCredential { credential_id: args[4].clone() })
        } else {
            None
        };
        return Ok(ServerCommandV1::Registry { config: args[3].clone(), tail });
    }
    if word(first, "enrollment") {
        if n < 4 {
            return Err(ServerError::Usage);
        }
        if word(&args[2], "revoke") {
            if n != 6 {
                return Err(ServerError::Usage);
            }
            return Ok(ServerCommandV1::EnrollmentRevoke {
                config: args[3].clone(),
                enrollment_id: args[4].clone(),
                command_id: args[5].clone(),
            });
        }
        if !word(&args[2], "create") || n < 5 {
            return Err(ServerError::Usage);
        }
        let rest = if n == 7 {
            match parse_positive(&args[5]) {
                Some(ttl_ms) => Some((ttl_ms, args[6].clone())),
                None => None,
            }
        } else {
            None
        };
        return Ok(ServerCommandV1::EnrollmentCreate { config: args[3].clone(), pool: args[4].clone(), rest });
    }
    if word(first, "credential") {
        if n < 5 {
            return Err(ServerError::Usage);
        }
        let action = &args[2];
        let tail = if word(action, "revoke") && n == 6 {
            Some(CredentialTailV1::Revoke { command_id: args[5].clone() })
        } else if word(action, "rotate") && n == 7 {
            match parse_positive(&args[5]) {
                Some(ttl_ms) => Some(CredentialTailV1::Rotate { ttl_ms, output: args[6].clone() }),
                None => None,
            }
        } else {
            None
        };
        return Ok(ServerCommandV1::Credential { config: args[3].clone(), credential_id: args[4].clone(), tail });
    }
    if word(first, "worker") {
        if n < 5 {
            return Err(ServerError::Usage);
        }
        let action = &args[2];
        let tail = if word(action, "disable") && n == 6 {
            Some(WorkerTailV1::Disable { command_id: args[5].clone() })
        } else if word(action, "enable") && n == 6 {
            Some(WorkerTailV1::Enable { command_id: args[5].clone() })
        } else if word(action, "set-pool") && n >= 6 {
            Some(WorkerTailV1::SetPool {
                pool: args[5].clone(),
                command_id: if n == 7 { Some(args[6].clone()) } else { None },
            })
        } else {
            None
        };
        return Ok(ServerCommandV1::Worker { config: args[3].clone(), worker_id: args[4].clone(), tail });
    }
    if n != 2 {
        return Err(ServerError::Usage);
    }
    Ok(ServerCommandV1::Run { config: first.clone() })
}

} // verus!
