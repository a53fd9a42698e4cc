//! Signatures of chats.
use crate::text::{decimal_text, same_text};
use vstd::prelude::*;
use vstd::string::StringExecFns;

verus! {

/// A signature of a chat. The kind is unknown for records from before kinds
/// were stored.
#[derive(Debug, Clone)]
pub struct ChatSignature {
    pub text: String,
    pub signature: String,
    pub signing_address: String,
    pub signing_algo: String,
    pub signature_kind: Option<String>,
}

/// The position of the first signature with an algorithm.
pub open spec fn position_of(signatures: Seq<ChatSignature>, algo: Seq<char>) -> Option<int>
    decreases signatures.len(),
{
    if signatures.len() == 0 {
        None
    } else {
        match position_of(signatures.drop_last(), algo) {
            Some(i) => Some(i),
            None => if signatures.last().signing_algo@ == algo {
                Some(signatures.len() - 1)
            } else {
                None
            },
        }
    }
}

/// One signature for each algorithm: the last one, in the place of the first.
pub open spec fn one_per_algo(signatures: Seq<ChatSignature>) -> Seq<ChatSignature>
    decreases signatures.len(),
{
    if signatures.len() == 0 {
        seq![]
    } else {
        let before = one_per_algo(signatures.drop_last());
        let last = signatures.last();
        match position_of(before, last.signing_algo@) {
            Some(i) => before.update(i, last),
            None => before.push(last),
        }
    }
}

proof fn lemma_position(signatures: Seq<ChatSignature>, algo: Seq<char>)
    ensures
        match position_of(signatures, algo) {
            Some(i) => 0 <= i < signatures.len() && signatures[i].signing_algo@ == algo
                && forall|k: int| 0 <= k < i ==> (#[trigger] signatures[k]).signing_algo@ != algo,
            None => forall|k: int|
                0 <= k < signatures.len() ==> (#[trigger] signatures[k]).signing_algo@ != algo,
        },
    decreases signatures.len(),
{
    if signatures.len() > 0 {
        let shorter = signatures.drop_last();
        lemma_position(shorter, algo);
        assert forall|k: int| 0 <= k < shorter.len() implies shorter[k] == signatures[k] by {}
        match position_of(shorter, algo) {
            Some(i) => {
                assert(signatures[i] == shorter[i]);
            },
            None => {
                assert forall|k: int| 0 <= k < shorter.len() implies (
                #[trigger] signatures[k]).signing_algo@ != algo by {
                    assert(shorter[k] == signatures[k]);
                }
            },
        }
    }
}

fn find_algo(signatures: &Vec<ChatSignature>, algo: &str) -> (r: Option<usize>)
    ensures
        position_of(signatures@, algo@) == (match r {
            Some(i) => Some(i as int),
            None => None,
        }),
        r matches Some(i) ==> i < signatures@.len(),
{
    proof {
        lemma_position(signatures@, algo@);
    }
    let mut i: usize = 0;
    while i < signatures.len()
        invariant
            i <= signatures@.len(),
            forall|k: int| 0 <= k < i ==> (#[trigger] signatures@[k]).signing_algo@ != algo@,
            match position_of(signatures@, algo@) {
                Some(p) => 0 <= p < signatures@.len() && signatures@[p].signing_algo@ == algo@
                    && forall|k: int|
                    0 <= k < p ==> (#[trigger] signatures@[k]).signing_algo@ != algo@,
                None => forall|k: int|
                    0 <= k < signatures@.len() ==> (#[trigger] signatures@[k]).signing_algo@
                        != algo@,
            },
        decreases signatures.len() - i,
    {
        if same_text(signatures[i].signing_algo.as_str(), algo) {
            assert(signatures@[i as int].signing_algo@ == algo@);
            return Some(i);
        }
        i = i + 1;
    }
    None
}

/// Keeps the last signature for each algorithm, so that no statement writes the
/// same record twice.
pub fn last_signature_per_algo(signatures: Vec<ChatSignature>) -> (r: Vec<ChatSignature>)
    ensures
        r@ == one_per_algo(signatures@),
{
    let ghost given = signatures@;
    let mut rest = signatures;
    let mut reversed: Vec<ChatSignature> = Vec::new();
    while rest.len() > 0
        invariant
            rest@.len() + reversed@.len() == given.len(),
            rest@ == given.take(rest@.len() as int),
            forall|k: int|
                0 <= k < reversed@.len() ==> #[trigger] reversed@[k] == given[given.len() - 1 - k],
        decreases rest.len(),
    {
        let ghost last = rest@.len() - 1;
        match rest.pop() {
            Some(signature) => {
                assert(given.take(last + 1)[last] == given[last]);
                reversed.push(signature);
            },
            None => {},
        }
        assert(rest@ =~= given.take(last));
    }
    let mut deduped: Vec<ChatSignature> = Vec::new();
    let ghost mut done: int = 0;
    assert(given.take(0) =~= seq![]);
    while reversed.len() > 0
        invariant
            0 <= done <= given.len(),
            reversed@.len() == given.len() - done,
            forall|k: int|
                0 <= k < reversed@.len() ==> #[trigger] reversed@[k] == given[given.len() - 1 - k],
            deduped@ == one_per_algo(given.take(done)),
        decreases reversed.len(),
    {
        let ghost top = reversed@[reversed@.len() - 1];
        match reversed.pop() {
            Some(signature) => {
                proof {
                    assert(top == given[done]);
                    assert(given.take(done + 1).drop_last() =~= given.take(done));
                    assert(given.take(done + 1).last() == given[done]);
                }
                match find_algo(&deduped, signature.signing_algo.as_str()) {
                    Some(i) => {
                        deduped.set(i, signature);
                    },
                    None => {
                        deduped.push(signature);
                    },
                }
                proof {
                    done = done + 1;
                }
            },
            None => {},
        }
    }
    assert(given.take(given.len() as int) =~= given);
    deduped
}

/// No algorithm is left with two signatures.
pub proof fn law_one_signature_per_algorithm(signatures: Seq<ChatSignature>)
    ensures
        forall|i: int, j: int|
            0 <= i < j < one_per_algo(signatures).len() ==> (#[trigger] one_per_algo(
                signatures,
            )[i]).signing_algo@ != (#[trigger] one_per_algo(signatures)[j]).signing_algo@,
    decreases signatures.len(),
{
    if signatures.len() > 0 {
        law_one_signature_per_algorithm(signatures.drop_last());
        let before = one_per_algo(signatures.drop_last());
        let after = one_per_algo(signatures);
        let last = signatures.last();
        lemma_position(before, last.signing_algo@);
        assert forall|i: int, j: int| 0 <= i < j < after.len() implies (
        #[trigger] after[i]).signing_algo@ != (#[trigger] after[j]).signing_algo@ by {
            match position_of(before, last.signing_algo@) {
                Some(p) => {
                    if i == p {
                        assert(before[i].signing_algo@ != before[j].signing_algo@);
                    } else if j == p {
                        assert(before[i].signing_algo@ != before[j].signing_algo@);
                    } else {
                        assert(before[i].signing_algo@ != before[j].signing_algo@);
                    }
                },
                None => {
                    if j < before.len() {
                        assert(before[i].signing_algo@ != before[j].signing_algo@);
                    }
                },
            }
        }
    }
}

/// Whether a signature is the last that was given for its algorithm.
pub open spec fn is_last_of_algo(signatures: Seq<ChatSignature>, i: int) -> bool {
    &&& 0 <= i < signatures.len()
    &&& forall|k: int|
        i < k < signatures.len() ==> (#[trigger] signatures[k]).signing_algo@
            != signatures[i].signing_algo@
}

/// The last signature of each algorithm is kept.
pub proof fn law_last_signatures_are_kept(signatures: Seq<ChatSignature>, i: int)
    requires
        is_last_of_algo(signatures, i),
    ensures
        one_per_algo(signatures).contains(signatures[i]),
    decreases signatures.len(),
{
    let before = one_per_algo(signatures.drop_last());
    let after = one_per_algo(signatures);
    let last = signatures.last();
    lemma_position(before, last.signing_algo@);
    if i == signatures.len() - 1 {
        match position_of(before, last.signing_algo@) {
            Some(p) => {
                assert(after[p] == last);
            },
            None => {
                assert(after[before.len() as int] == last);
            },
        }
    } else {
        let shorter = signatures.drop_last();
        assert(is_last_of_algo(shorter, i)) by {
            assert forall|k: int| i < k < shorter.len() implies (
            #[trigger] shorter[k]).signing_algo@ != shorter[i].signing_algo@ by {
                assert(signatures[k].signing_algo@ != signatures[i].signing_algo@);
            }
        }
        law_last_signatures_are_kept(shorter, i);
        assert(shorter[i] == signatures[i]);
        let at = choose|at: int| 0 <= at < before.len() && before[at] == signatures[i];
        assert(signatures[signatures.len() - 1].signing_algo@ != signatures[i].signing_algo@);
        match position_of(before, last.signing_algo@) {
            Some(p) => {
                assert(at != p);
                assert(after[at] == signatures[i]);
            },
            None => {
                assert(after[at] == signatures[i]);
            },
        }
    }
}

/// Every signature that is kept is the last of its algorithm, so that what is
/// kept is exactly the last signature of each.
pub proof fn law_only_last_signatures_are_kept(signatures: Seq<ChatSignature>, j: int)
    requires
        0 <= j < one_per_algo(signatures).len(),
    ensures
        exists|i: int|
            #[trigger] is_last_of_algo(signatures, i) && one_per_algo(signatures)[j]
                == signatures[i],
    decreases signatures.len(),
{
    let n = signatures.len() - 1;
    let shorter = signatures.drop_last();
    let before = one_per_algo(shorter);
    let after = one_per_algo(signatures);
    let last = signatures.last();
    lemma_position(before, last.signing_algo@);
    let replaced = match position_of(before, last.signing_algo@) {
        Some(p) => p,
        None => before.len() as int,
    };
    if j == replaced {
        assert(after[j] == signatures[n]);
        assert(is_last_of_algo(signatures, n));
    } else {
        assert(after[j] == before[j]);
        law_only_last_signatures_are_kept(shorter, j);
        let i = choose|i: int| #[trigger] is_last_of_algo(shorter, i) && before[j] == shorter[i];
        assert(shorter[i] == signatures[i]);
        assert(before[j].signing_algo@ != last.signing_algo@) by {
            law_one_signature_per_algorithm(shorter);
            if replaced < before.len() {
                if j < replaced {
                    assert(before[j].signing_algo@ != before[replaced].signing_algo@);
                } else {
                    assert(before[replaced].signing_algo@ != before[j].signing_algo@);
                }
            }
        }
        assert forall|k: int| i < k < signatures.len() implies (
        #[trigger] signatures[k]).signing_algo@ != signatures[i].signing_algo@ by {
            if k < n {
                assert(shorter[k] == signatures[k]);
            }
        }
        assert(is_last_of_algo(signatures, i));
    }
}

/// The beginning of the statement that stores signatures.
pub const INSERT_HEAD: &'static str =
    "INSERT INTO chat_signatures (chat_id, text, signature, signing_address, signing_algo, signature_kind) VALUES ";

/// Its end.
pub const INSERT_TAIL: &'static str =
    " ON CONFLICT (chat_id, signing_algo) DO UPDATE SET text = EXCLUDED.text, signature = EXCLUDED.signature, signing_address = EXCLUDED.signing_address, signature_kind = EXCLUDED.signature_kind, updated_at = NOW()";

/// The placeholder with a number.
pub open spec fn placeholder(n: int) -> Seq<char> {
    "$"@ + crate::text::decimal(n as nat)
}

/// The placeholders of the record at a position: six, numbered on from those
/// of the records before it.
pub open spec fn record_placeholders(index: int) -> Seq<char> {
    "("@ + placeholder(6 * index + 1) + ", "@ + placeholder(6 * index + 2) + ", "@ + placeholder(
        6 * index + 3,
    ) + ", "@ + placeholder(6 * index + 4) + ", "@ + placeholder(6 * index + 5) + ", "@
        + placeholder(6 * index + 6) + ")"@
}

/// The placeholders of the first `count` records.
pub open spec fn all_placeholders(count: int) -> Seq<char>
    decreases count,
{
    if count <= 0 {
        seq![]
    } else if count == 1 {
        record_placeholders(0)
    } else {
        all_placeholders(count - 1) + ", "@ + record_placeholders(count - 1)
    }
}

fn append_placeholder(sql: &mut String, n: u64)
    ensures
        final(sql)@ == old(sql)@ + placeholder(n as int),
{
    sql.append("$");
    sql.append(decimal_text(n).as_str());
    assert(old(sql)@ + "$"@ + crate::text::decimal(n as nat) =~= old(sql)@ + placeholder(n as int));
}

fn append_record(sql: &mut String, index: u64)
    requires
        6 * index + 6 <= u64::MAX,
    ensures
        final(sql)@ == old(sql)@ + record_placeholders(index as int),
{
    let base: u64 = index * 6;
    sql.append("(");
    append_placeholder(sql, base + 1);
    sql.append(", ");
    append_placeholder(sql, base + 2);
    sql.append(", ");
    append_placeholder(sql, base + 3);
    sql.append(", ");
    append_placeholder(sql, base + 4);
    sql.append(", ");
    append_placeholder(sql, base + 5);
    sql.append(", ");
    append_placeholder(sql, base + 6);
    sql.append(")");
    assert(sql@ =~= old(sql)@ + record_placeholders(index as int));
}

/// The statement that stores a number of signatures at once. The values are
/// bound record by record: chat, text, signature, address, algorithm, kind.
pub fn insert_statement(count: u64) -> (r: String)
    requires
        6 * count <= u64::MAX,
    ensures
        r@ == INSERT_HEAD@ + all_placeholders(count as int) + INSERT_TAIL@,
{
    let mut sql = INSERT_HEAD.to_owned();
    let mut i: u64 = 0;
    assert(INSERT_HEAD@ + all_placeholders(0) =~= INSERT_HEAD@);
    while i < count
        invariant
            i <= count,
            6 * count <= u64::MAX,
            sql@ == INSERT_HEAD@ + all_placeholders(i as int),
        decreases count - i,
    {
        if i > 0 {
            sql.append(", ");
        }
        append_record(&mut sql, i);
        proof {
            assert(all_placeholders(1) == record_placeholders(0));
            if i > 0 {
                assert(INSERT_HEAD@ + all_placeholders(i as int) + ", "@ + record_placeholders(
                    i as int,
                ) =~= INSERT_HEAD@ + all_placeholders(i + 1));
            } else {
                assert(INSERT_HEAD@ + all_placeholders(0) + record_placeholders(0) =~= INSERT_HEAD@
                    + all_placeholders(1));
            }
        }
        i = i + 1;
    }
    sql.append(INSERT_TAIL);
    sql
}

/// The kind of a stored signature, where it is one of those that are known. A
/// kind that is not known is not guessed.
pub fn recognized_kind(stored: Option<String>, known: &Vec<String>) -> (r: Option<String>)
    ensures
        match stored {
            Some(kind) => if exists|i: int|
                0 <= i < known@.len() && (#[trigger] known@[i])@ == kind@ {
                r == Some(kind)
            } else {
                r is None
            },
            None => r is None,
        },
{
    match stored {
        None => None,
        Some(kind) => {
            let mut i: usize = 0;
            while i < known.len()
                invariant
                    i <= known@.len(),
                    stored == Some(kind),
                    forall|k: int| 0 <= k < i ==> (#[trigger] known@[k])@ != kind@,
                decreases known.len() - i,
            {
                if same_text(known[i].as_str(), kind.as_str()) {
                    assert(known@[i as int]@ == kind@);
                    return Some(kind);
                }
                i = i + 1;
            }
            None
        },
    }
}

/// Why a signature could not be given.
#[derive(Debug, Clone)]
pub enum AttestationError {
    SignatureNotFound(String),
    RepositoryError(String),
}

/// How a signature that does not exist is reported.
pub fn signature_not_found(chat_id: &str, signing_algo: &str) -> (r: AttestationError)
    ensures
        r matches AttestationError::SignatureNotFound(key) && key@ == chat_id@ + ":"@
            + signing_algo@,
{
    let mut key = chat_id.to_owned();
    key.append(":");
    key.append(signing_algo);
    AttestationError::SignatureNotFound(key)
}

/// A signature takes the place of the one before it of the same algorithm, or
/// comes last where there was none; the others stay in their places.
pub proof fn law_later_signatures_take_the_place(
    signatures: Seq<ChatSignature>,
    signature: ChatSignature,
    i: int,
)
    ensures
        one_per_algo(seq![]).len() == 0,
        0 <= i < one_per_algo(signatures).len() && one_per_algo(signatures)[i].signing_algo@
            == signature.signing_algo@ ==> one_per_algo(signatures.push(signature)).len()
            == one_per_algo(signatures).len() && one_per_algo(signatures.push(signature))[i]
            == signature && forall|k: int|
            0 <= k < one_per_algo(signatures).len() && k != i ==> #[trigger] one_per_algo(
                signatures.push(signature),
            )[k] == one_per_algo(signatures)[k],
        (forall|k: int|
            0 <= k < one_per_algo(signatures).len() ==> (#[trigger] one_per_algo(
                signatures,
            )[k]).signing_algo@ != signature.signing_algo@) ==> one_per_algo(
            signatures.push(signature),
        ) == one_per_algo(signatures).push(signature),
{
    let before = one_per_algo(signatures);
    assert(signatures.push(signature).drop_last() =~= signatures);
    lemma_position(before, signature.signing_algo@);
    law_one_signature_per_algorithm(signatures);
    if 0 <= i < before.len() && before[i].signing_algo@ == signature.signing_algo@ {
        match position_of(before, signature.signing_algo@) {
            Some(p) => {
                if p < i {
                    assert(before[p].signing_algo@ != before[i].signing_algo@);
                }
                assert(p == i);
            },
            None => {},
        }
    }
}

/// One record more adds six placeholders, numbered on from those before.
pub proof fn law_placeholders_are_numbered_through(count: int)
    requires
        count >= 0,
    ensures
        all_placeholders(0).len() == 0,
        all_placeholders(1) == record_placeholders(0),
        count > 0 ==> all_placeholders(count + 1) == all_placeholders(count) + ", "@
            + record_placeholders(count),
        record_placeholders(count) == "("@ + ("$"@ + crate::text::decimal((6 * count + 1) as nat))
            + ", "@ + ("$"@ + crate::text::decimal((6 * count + 2) as nat)) + ", "@ + ("$"@
            + crate::text::decimal((6 * count + 3) as nat)) + ", "@ + ("$"@ + crate::text::decimal(
            (6 * count + 4) as nat,
        )) + ", "@ + ("$"@ + crate::text::decimal((6 * count + 5) as nat)) + ", "@ + ("$"@
            + crate::text::decimal((6 * count + 6) as nat)) + ")"@,
{
}

/// A kind that is told is the one stored, and none is told where none is stored.
pub proof fn law_told_kinds_are_the_stored_ones(
    kind: String,
    known: Vec<String>,
    r: Option<String>,
    missing: Option<String>,
)
    requires
        call_ensures(recognized_kind, (Some(kind), &known), r),
        call_ensures(recognized_kind, (None::<String>, &known), missing),
    ensures
        r matches Some(told) ==> told == kind,
        known@.len() == 0 ==> r is None,
        missing is None,
{
}

} // verus!
