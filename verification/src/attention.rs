//! Failure messages of a run, and the attention reasons they stand for.

use crate::text::{
    ascii_lower, contains_text, find, first_occurrence_is, from_chars, is_blank, join, lower,
    lower_char, occurs_at, piece_after, second_piece, to_chars, trim, trimmed, trimmed_is_same,
};
use crate::types::{AttentionReason, AttentionView};
use vstd::prelude::*;
use vstd::string::*;

verus! {

/// The reason that a failure message stands for: one that speaks of an invalid note names the
/// transfer behind the word `transfer`; every other one is an expiry.
pub open spec fn attention_of(message: Seq<char>) -> AttentionView {
    if contains_text(lower(message), "invalid note"@) {
        AttentionView::InvalidTransfer {
            transfer_id: trimmed(second_piece(message, "transfer "@)),
        }
    } else {
        AttentionView::TransferExpired
    }
}

/// Classify a recoverable failure's error message into an [`AttentionReason`].
pub fn attention_from_error(message: &str) -> (reason: AttentionReason)
    ensures
        reason@ == attention_of(message@),
{
    let lowered: Vec<char> = to_chars(ascii_lower(message).as_str());
    let wanted: Vec<char> = to_chars("invalid note");
    if find(lowered.as_slice(), wanted.as_slice()).is_some() {
        let chars: Vec<char> = to_chars(message);
        let separator: Vec<char> = to_chars("transfer ");
        let piece: Vec<char> = piece_after(chars.as_slice(), separator.as_slice());
        let id: Vec<char> = trim(piece.as_slice());
        AttentionReason::InvalidTransfer { transfer_id: from_chars(id.as_slice()) }
    } else {
        AttentionReason::TransferExpired
    }
}

/// The message of a run whose transfer spends an invalid note.
pub open spec fn invalid_note_message(transfer_id: Seq<char>) -> Seq<char> {
    "invalid note for transfer "@ + transfer_id
}

/// The message of a run whose transfer expired.
pub open spec fn expired_message(transfer_id: Seq<char>) -> Seq<char> {
    "transfer "@ + transfer_id + " expired"@
}

/// The message of a run whose transfer spends an invalid note.
pub fn invalid_note_text(transfer_id: &str) -> (s: String)
    ensures
        s@ == invalid_note_message(transfer_id@),
{
    join("invalid note for transfer ", transfer_id)
}

/// The message of a run whose transfer expired.
pub fn expired_text(transfer_id: &str) -> (s: String)
    ensures
        s@ == expired_message(transfer_id@),
{
    let a: String = join("transfer ", transfer_id);
    join(a.as_str(), " expired")
}

// ----- laws -----

/// The message of an invalid note names the transfer it came from, unless the id starts or ends
/// with a blank or holds the word that sets it off.
pub proof fn invalid_note_names_its_transfer(transfer_id: Seq<char>)
    requires
        transfer_id.len() > 0 ==> !is_blank(transfer_id[0]) && !is_blank(transfer_id.last()),
        !contains_text(transfer_id, "transfer "@),
    ensures
        attention_of(invalid_note_message(transfer_id)) == (AttentionView::InvalidTransfer {
            transfer_id,
        }),
{
    let message = invalid_note_message(transfer_id);
    let head = "invalid note for transfer "@;
    let word = "transfer "@;
    let wanted = "invalid note"@;
    reveal_strlit("invalid note for transfer ");
    reveal_strlit("transfer ");
    reveal_strlit("invalid note");
    assert(head.len() == 26 && word.len() == 9 && wanted.len() == 12);
    assert(lower(message).subrange(0, 12) =~= wanted) by {
        assert forall|k: int| 0 <= k < 12 implies lower(message)[k] == wanted[k] by {
            assert(message[k] == head[k]);
            assert(head[k] == wanted[k]);
            assert(lower_char(wanted[k]) == wanted[k]);
        }
    }
    assert(occurs_at(lower(message), wanted, 0));
    assert(message.subrange(17, 26) =~= word) by {
        assert forall|k: int| 0 <= k < 9 implies message[17 + k] == word[k] by {
            assert(message[17 + k] == head[17 + k]);
        }
    }
    assert(occurs_at(message, word, 17));
    assert forall|j: int| 0 <= j < 17 implies !occurs_at(message, word, j) by {
        if occurs_at(message, word, j) {
            assert(message.subrange(j, j + 9)[0] == 't');
            assert(message.subrange(j, j + 9)[1] == 'r');
            assert(message[j] == head[j] && message[j + 1] == head[j + 1]);
        }
    }
    first_occurrence_is(message, word, 17);
    assert(message.skip(26) =~= transfer_id);
    trimmed_is_same(transfer_id);
}

/// The message of an expiry is read as one, unless the id itself speaks of an invalid note.
pub proof fn expired_is_an_expiry(transfer_id: Seq<char>)
    requires
        !contains_text(lower(transfer_id), "invalid note"@),
    ensures
        attention_of(expired_message(transfer_id)) == AttentionView::TransferExpired,
{
    let message = lower(expired_message(transfer_id));
    let wanted = "invalid note"@;
    let n = transfer_id.len() as int;
    reveal_strlit("transfer ");
    reveal_strlit(" expired");
    reveal_strlit("invalid note");
    assert("transfer "@.len() == 9 && " expired"@.len() == 8 && wanted.len() == 12);
    assert forall|i: int| !occurs_at(message, wanted, i) by {
        if occurs_at(message, wanted, i) {
            let found = message.subrange(i, i + 12);
            assert(found[0] == 'i' && found[10] == 't' && found[11] == 'e');
            assert(message[i] == 'i' && message[i + 10] == 't' && message[i + 11] == 'e');
            let raw = expired_message(transfer_id);
            if i < 9 {
                assert(raw[i] == "transfer "@[i]);
            } else if i + 12 <= 9 + n {
                assert(lower(transfer_id).subrange(i - 9, i + 3) =~= found);
                assert(occurs_at(lower(transfer_id), wanted, i - 9));
            } else {
                let k = i + 11 - 9 - n;
                assert(raw[i + 11] == " expired"@[k]);
                if k > 0 {
                    assert(raw[i + 10] == " expired"@[k - 1]);
                }
            }
        }
    }
}

} // verus!
