//! The admin identifier-mapping endpoint: a comma-separated list of pids or
//! usernames in, the corresponding usernames or pids out. Empty entries are
//! skipped; one unparsable pid aborts the whole request, as the service
//! always has.

use vstd::prelude::*;
use vstd::string::StringExecFns;
use crate::account::{User, UserTable, find_by_pid, find_by_username};
use crate::text::{first_idx, split_once_char, parse_i32, parse_i32_spec, i32_to_string,
    dec_i32_of, str_eq, lemma_filter_singleton, lemma_first_idx_found};

verus! {

/// One mapping entry: the identifier as it came in, and what it maps to, if
/// anything.
pub struct MappedId {
    pub in_id: String,
    pub out_id: Option<String>,
}

/// The response list.
pub struct MappedIds {
    pub mapped_id: Vec<MappedId>,
}

/// The input split at every comma; separators are dropped, empty pieces are
/// kept here and skipped later.
pub open spec fn split_commas(s: Seq<char>) -> Seq<Seq<char>>
    decreases s.len(),
{
    let i = first_idx(s, ',');
    if i < 0 || i >= s.len() {
        seq![s]
    } else {
        seq![s.take(i)] + split_commas(s.skip(i + 1))
    }
}

/// The pieces that are actually processed.
pub open spec fn nonempty_pieces(s: Seq<char>) -> Seq<Seq<char>> {
    split_commas(s).filter(|p: Seq<char>| p.len() != 0)
}

/// The account one piece names, under the input interpretation. A piece
/// that fails to parse as a pid never reaches this: it aborts the request.
pub open spec fn lookup_piece(users: Seq<User>, piece: Seq<char>, is_input_pid: bool)
    -> Option<User> {
    if is_input_pid {
        match parse_i32_spec(piece) {
            Some(pid) => find_by_pid(users, pid as int),
            None => None,
        }
    } else {
        find_by_username(users, piece)
    }
}

/// What an account maps to, under the output interpretation.
pub open spec fn out_id_of(u: User, is_output_pid: bool) -> Seq<char> {
    if is_output_pid {
        dec_i32_of(u.pid as int)
    } else {
        u.username@
    }
}

/// Whether one response entry correctly answers one piece.
pub open spec fn entry_ok(users: Seq<User>, e: MappedId, piece: Seq<char>, is_input_pid: bool,
    is_output_pid: bool) -> bool {
    &&& e.in_id@ == piece
    &&& match lookup_piece(users, piece, is_input_pid) {
        Some(u) => e.out_id matches Some(o) && o@ == out_id_of(u, is_output_pid),
        None => e.out_id is None,
    }
}

/// Whether some processed piece fails to parse as a pid.
pub open spec fn has_bad_pid(pieces: Seq<Seq<char>>) -> bool {
    exists|k: int| 0 <= k < pieces.len() && parse_i32_spec(pieces[k]) is None
}

fn map_piece(users: &UserTable, piece: &str, is_input_pid: bool, is_output_pid: bool) -> (r:
    Option<MappedId>)
    ensures
        is_input_pid && parse_i32_spec(piece@) is None ==> r is None,
        !(is_input_pid && parse_i32_spec(piece@) is None) ==> (r matches Some(e) && entry_ok(
            users.users@,
            e,
            piece@,
            is_input_pid,
            is_output_pid,
        )),
{
    let found = if is_input_pid {
        let id = match parse_i32(piece) {
            Some(id) => id,
            None => {
                return None;
            },
        };
        users.get_by_pid(id)
    } else {
        users.get_by_username(piece)
    };
    let out_id = match found {
        Some(u) => {
            if is_output_pid {
                Some(i32_to_string(u.pid))
            } else {
                Some(u.username)
            }
        },
        None => None,
    };
    Some(MappedId { in_id: String::from_str(piece), out_id })
}

/// Map every identifier in the comma-separated input. None exactly when the
/// input interpretation is pid and some non-empty piece is not a pid.
pub fn mapped_ids(users: &UserTable, input_type: &str, output_type: &str, input: &str) -> (r:
    Option<MappedIds>)
    ensures
        ({
            let pieces = nonempty_pieces(input@);
            let is_input_pid = input_type@ == "pid"@;
            let is_output_pid = output_type@ == "pid"@;
            if is_input_pid && has_bad_pid(pieces) {
                r is None
            } else {
                r matches Some(m) && m.mapped_id@.len() == pieces.len() && forall|k: int|
                    0 <= k < pieces.len() ==> entry_ok(
                        users.users@,
                        m.mapped_id@[k],
                        pieces[k],
                        is_input_pid,
                        is_output_pid,
                    )
            }
        }),
{
    let is_input_pid = str_eq(input_type, "pid");
    let is_output_pid = str_eq(output_type, "pid");
    let mut outputs: Vec<MappedId> = Vec::new();
    let mut rest: &str = input;
    let ghost mut processed: Seq<Seq<char>> = Seq::empty();
    proof {
        assert(nonempty_pieces(Seq::<char>::empty() + input@) =~= nonempty_pieces(input@));
        assert(Seq::<Seq<char>>::empty().filter(|p: Seq<char>| p.len() != 0) =~= Seq::<
            Seq<char>,
        >::empty());
    }
    loop
        invariant
            is_input_pid == (input_type@ == "pid"@),
            is_output_pid == (output_type@ == "pid"@),
            split_commas(input@) =~= processed + split_commas(rest@),
            outputs@.len() == processed.filter(|p: Seq<char>| p.len() != 0).len(),
            forall|k: int|
                0 <= k < outputs@.len() ==> entry_ok(
                    users.users@,
                    outputs@[k],
                    processed.filter(|p: Seq<char>| p.len() != 0)[k],
                    is_input_pid,
                    is_output_pid,
                ),
            is_input_pid ==> !has_bad_pid(processed.filter(|p: Seq<char>| p.len() != 0)),
        decreases rest@.len(),
    {
        let ghost old_processed = processed;
        let (piece, next) = match split_once_char(rest, ',') {
            Some(p) => p,
            None => {
                proof {
                    processed = processed.push(rest@);
                    assert(seq![rest@] =~= Seq::<Seq<char>>::empty() + seq![rest@]);
                    assert(processed =~= old_processed + seq![rest@]);
                    Seq::<Seq<char>>::filter_distributes_over_add(
                        old_processed,
                        seq![rest@],
                        |p: Seq<char>| p.len() != 0,
                    );
                    lemma_filter_singleton(rest@, |p: Seq<char>| p.len() != 0);
                    lemma_first_idx_found(rest@, ',');
                    assert(split_commas(rest@) =~= seq![rest@]);
                    assert(nonempty_pieces(input@) =~= processed.filter(
                        |p: Seq<char>| p.len() != 0,
                    ));
                }
                if piece_is_empty(rest) {
                    return Some(MappedIds { mapped_id: outputs });
                }
                match map_piece(users, rest, is_input_pid, is_output_pid) {
                    Some(e) => {
                        outputs.push(e);
                        return Some(MappedIds { mapped_id: outputs });
                    },
                    None => {
                        proof {
                            let pieces = nonempty_pieces(input@);
                            let idx = old_processed.filter(
                                |p: Seq<char>| p.len() != 0,
                            ).len() as int;
                            assert(pieces[idx] == rest@);
                            assert(parse_i32_spec(pieces[idx]) is None);
                        }
                        return None;
                    },
                }
            },
        };
        proof {
            lemma_first_idx_found(rest@, ',');
            processed = processed.push(piece@);
            assert(processed =~= old_processed + seq![piece@]);
            Seq::<Seq<char>>::filter_distributes_over_add(
                old_processed,
                seq![piece@],
                |p: Seq<char>| p.len() != 0,
            );
            lemma_filter_singleton(piece@, |p: Seq<char>| p.len() != 0);
            assert(split_commas(rest@) =~= seq![piece@] + split_commas(next@));
        }
        if !piece_is_empty(piece) {
            match map_piece(users, piece, is_input_pid, is_output_pid) {
                Some(e) => {
                    outputs.push(e);
                },
                None => {
                    proof {
                        let pieces = nonempty_pieces(input@);
                        let idx = old_processed.filter(|p: Seq<char>| p.len() != 0).len() as int;
                        assert(split_commas(input@) =~= processed + split_commas(next@));
                        assert(nonempty_pieces(input@) =~= processed.filter(
                            |p: Seq<char>| p.len() != 0,
                        ) + split_commas(next@).filter(|p: Seq<char>| p.len() != 0));
                        assert(pieces[idx] == piece@);
                        assert(parse_i32_spec(pieces[idx]) is None);
                    }
                    return None;
                },
            }
        }
        rest = next;
    }
}

fn piece_is_empty(s: &str) -> (r: bool)
    ensures
        r == (s@.len() == 0),
{
    s.unicode_len() == 0
}

} // verus!
