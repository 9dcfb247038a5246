//! Batches: transactions that commit together or not at all, under a signed
//! header that lists their identities in the order in which they were added.

use crate::digest::{sha512_hex, sha512_hex_spec};
use crate::error::GatewayError;
use crate::signing::{public_key_of, signature_of, signature_valid, verify, SigningContext};
use crate::transaction::{
    built_transaction, encode_transaction, lemma_parse_transaction_inverse,
    lemma_parse_transaction_of_encoding, parse_transaction, transaction_id_spec,
    transaction_valid, Transaction, TransactionBuilder, TransactionView, TAG_HEADER,
    TAG_HEADER_SIGNATURE,
};
use crate::wire::{
    field, fields, frame_views, lemma_fields_push, lemma_parse_field_inverse,
    lemma_parse_field_of_field, lemma_parse_fields_inverse, lemma_parse_fields_of_fields,
    lemma_parse_text_field_inverse, lemma_parse_text_field_of_text_field,
    lemma_parse_text_fields_inverse, lemma_parse_text_fields_of_text_fields, parse_field,
    parse_fields, parse_text_field, parse_text_fields, put_field, put_text_field,
    put_text_fields, take_field, take_fields, take_text_field, take_text_fields, text_field,
    text_fields,
};
use vstd::prelude::*;
use vstd::slice::slice_to_vec;

verus! {

/// The tag of the signer's public key in a batch header.
pub const TAG_BATCH_SIGNER: u8 = 0x0A;

/// The tag of a transaction identity in a batch header.
pub const TAG_TRANSACTION_ID: u8 = 0x12;

/// The tag of a transaction in a batch.
pub const TAG_TRANSACTION: u8 = 0x1A;

/// The tag of a batch in a batch list.
pub const TAG_BATCH: u8 = 0x0A;

/// What a batch declares of itself; it is the part that is signed.
#[derive(Debug, PartialEq, Eq)]
pub struct BatchHeader {
    /// The public key of the signer of the batch.
    pub signer_public_key: String,
    /// The identities of the transactions, in the order in which they apply.
    pub transaction_ids: Vec<String>,
}

/// The mathematical content of a batch header.
pub ghost struct BatchHeaderView {
    pub signer_public_key: Seq<char>,
    pub transaction_ids: Seq<Seq<char>>,
}

impl View for BatchHeader {
    type V = BatchHeaderView;

    open spec fn view(&self) -> BatchHeaderView {
        BatchHeaderView {
            signer_public_key: self.signer_public_key@,
            transaction_ids: self.transaction_ids.deep_view(),
        }
    }
}

/// A signed batch.
#[derive(Debug, PartialEq, Eq)]
pub struct Batch {
    /// The encoded header.
    pub header: Vec<u8>,
    /// The signature of the encoded header, as hexadecimal text.
    pub header_signature: String,
    /// The transactions, in the order in which they apply.
    pub transactions: Vec<Transaction>,
}

/// The mathematical content of a batch.
pub ghost struct BatchView {
    pub header: Seq<u8>,
    pub header_signature: Seq<char>,
    pub transactions: Seq<TransactionView>,
}

impl View for Batch {
    type V = BatchView;

    open spec fn view(&self) -> BatchView {
        BatchView {
            header: self.header@,
            header_signature: self.header_signature@,
            transactions: self.transactions.deep_view(),
        }
    }
}

impl DeepView for Batch {
    type V = BatchView;

    open spec fn deep_view(&self) -> BatchView {
        self@
    }
}

/// Batches that are submitted together, in order.
#[derive(Debug, PartialEq, Eq)]
pub struct BatchList {
    /// The batches, in the order in which they were put in.
    pub batches: Vec<Batch>,
}

/// The mathematical content of a batch list.
pub ghost struct BatchListView {
    pub batches: Seq<BatchView>,
}

impl View for BatchList {
    type V = BatchListView;

    open spec fn view(&self) -> BatchListView {
        BatchListView { batches: self.batches.deep_view() }
    }
}

/// The canonical encoding of a batch header.
pub open spec fn encode_batch_header(h: BatchHeaderView) -> Seq<u8> {
    text_field(TAG_BATCH_SIGNER, h.signer_public_key) + text_fields(
        TAG_TRANSACTION_ID,
        h.transaction_ids,
    )
}

/// Reads a batch header; the whole input must be its canonical encoding.
pub open spec fn parse_batch_header(s: Seq<u8>) -> Option<BatchHeaderView> {
    match parse_text_field(s, TAG_BATCH_SIGNER) {
        None => None,
        Some((signer_public_key, s1)) => match parse_text_fields(s1, TAG_TRANSACTION_ID) {
            None => None,
            Some((transaction_ids, s2)) => if s2.len() == 0 {
                Some(BatchHeaderView { signer_public_key, transaction_ids })
            } else {
                None
            },
        },
    }
}

/// The encoding of each transaction of `transactions`.
pub open spec fn encode_transactions(transactions: Seq<TransactionView>) -> Seq<Seq<u8>> {
    Seq::new(transactions.len(), |i: int| encode_transaction(transactions[i]))
}

/// The transactions that `items` encode, if every item encodes one.
pub open spec fn parse_transactions(items: Seq<Seq<u8>>) -> Option<Seq<TransactionView>> {
    if forall|i: int| 0 <= i < items.len() ==> parse_transaction(#[trigger] items[i]) is Some {
        Some(Seq::new(items.len(), |i: int| parse_transaction(items[i])->0))
    } else {
        None
    }
}

/// The canonical encoding of a batch.
pub open spec fn encode_batch(b: BatchView) -> Seq<u8> {
    field(TAG_HEADER, b.header) + (text_field(TAG_HEADER_SIGNATURE, b.header_signature) + fields(
        TAG_TRANSACTION,
        encode_transactions(b.transactions),
    ))
}

/// Reads a batch; the whole input must be its canonical encoding.
pub open spec fn parse_batch(s: Seq<u8>) -> Option<BatchView> {
    match parse_field(s, TAG_HEADER) {
        None => None,
        Some((header, s1)) => match parse_text_field(s1, TAG_HEADER_SIGNATURE) {
            None => None,
            Some((header_signature, s2)) => match parse_fields(s2, TAG_TRANSACTION) {
                None => None,
                Some((items, s3)) => if s3.len() == 0 {
                    match parse_transactions(items) {
                        Some(transactions) => Some(
                            BatchView { header, header_signature, transactions },
                        ),
                        None => None,
                    }
                } else {
                    None
                },
            },
        },
    }
}

/// The encoding of each batch of `batches`.
pub open spec fn encode_batches(batches: Seq<BatchView>) -> Seq<Seq<u8>> {
    Seq::new(batches.len(), |i: int| encode_batch(batches[i]))
}

/// The batches that `items` encode, if every item encodes one.
pub open spec fn parse_batches(items: Seq<Seq<u8>>) -> Option<Seq<BatchView>> {
    if forall|i: int| 0 <= i < items.len() ==> parse_batch(#[trigger] items[i]) is Some {
        Some(Seq::new(items.len(), |i: int| parse_batch(items[i])->0))
    } else {
        None
    }
}

/// The wire message of a batch list: the unit that is handed to the validator.
pub open spec fn encode_batch_list(l: BatchListView) -> Seq<u8> {
    fields(TAG_BATCH, encode_batches(l.batches))
}

/// Reads a batch list; the whole input must be its wire message.
pub open spec fn parse_batch_list(s: Seq<u8>) -> Option<BatchListView> {
    match parse_fields(s, TAG_BATCH) {
        None => None,
        Some((items, rest)) => if rest.len() == 0 {
            match parse_batches(items) {
                Some(batches) => Some(BatchListView { batches }),
                None => None,
            }
        } else {
            None
        },
    }
}

/// Reading the encoding of a batch header gives the header back.
pub proof fn lemma_parse_batch_header_of_encoding(h: BatchHeaderView)
    ensures
        parse_batch_header(encode_batch_header(h)) == Some(h),
{
    let e2 = text_fields(TAG_TRANSACTION_ID, h.transaction_ids);
    lemma_parse_text_field_of_text_field(TAG_BATCH_SIGNER, h.signer_public_key, e2);
    lemma_parse_text_fields_of_text_fields(TAG_TRANSACTION_ID, h.transaction_ids, Seq::empty());
}

/// Whatever reads as a batch header is the encoding of that header.
pub proof fn lemma_parse_batch_header_inverse(s: Seq<u8>)
    ensures
        parse_batch_header(s) matches Some(h) ==> s == encode_batch_header(h),
{
    if let Some(h) = parse_batch_header(s) {
        lemma_parse_text_field_inverse(s, TAG_BATCH_SIGNER);
        let (_, s1) = parse_text_field(s, TAG_BATCH_SIGNER)->0;
        lemma_parse_text_fields_inverse(s1, TAG_TRANSACTION_ID);
    }
}

/// Headers with the same encoding are the same header: in particular they list
/// the same identities in the same order.
pub proof fn lemma_encode_batch_header_injective(a: BatchHeaderView, b: BatchHeaderView)
    requires
        encode_batch_header(a) == encode_batch_header(b),
    ensures
        a == b,
{
    lemma_parse_batch_header_of_encoding(a);
    lemma_parse_batch_header_of_encoding(b);
}

/// Reading the encodings of transactions gives the transactions back.
pub proof fn lemma_parse_transactions_of_encoding(transactions: Seq<TransactionView>)
    ensures
        parse_transactions(encode_transactions(transactions)) == Some(transactions),
{
    let items = encode_transactions(transactions);
    assert forall|i: int| 0 <= i < items.len() implies parse_transaction(#[trigger] items[i])
        == Some(transactions[i]) by {
        lemma_parse_transaction_of_encoding(transactions[i]);
    }
}

/// Items that read as transactions are the encodings of those transactions.
pub proof fn lemma_parse_transactions_inverse(items: Seq<Seq<u8>>)
    ensures
        parse_transactions(items) matches Some(transactions) ==> items == encode_transactions(
            transactions,
        ),
{
    if let Some(transactions) = parse_transactions(items) {
        assert forall|i: int| 0 <= i < items.len() implies #[trigger] items[i]
            == encode_transaction(transactions[i]) by {
            lemma_parse_transaction_inverse(items[i]);
        }
    }
}

/// Reading the encoding of a batch gives the batch back, with its transactions
/// in their order.
pub proof fn lemma_parse_batch_of_encoding(b: BatchView)
    ensures
        parse_batch(encode_batch(b)) == Some(b),
{
    let e3 = fields(TAG_TRANSACTION, encode_transactions(b.transactions));
    let e2 = text_field(TAG_HEADER_SIGNATURE, b.header_signature) + e3;
    lemma_parse_field_of_field(TAG_HEADER, b.header, e2);
    lemma_parse_text_field_of_text_field(TAG_HEADER_SIGNATURE, b.header_signature, e3);
    lemma_parse_fields_of_fields(
        TAG_TRANSACTION,
        encode_transactions(b.transactions),
        Seq::empty(),
    );
    lemma_parse_transactions_of_encoding(b.transactions);
}

/// Whatever reads as a batch is the encoding of that batch.
pub proof fn lemma_parse_batch_inverse(s: Seq<u8>)
    ensures
        parse_batch(s) matches Some(b) ==> s == encode_batch(b),
{
    if let Some(b) = parse_batch(s) {
        lemma_parse_field_inverse(s, TAG_HEADER);
        let (_, s1) = parse_field(s, TAG_HEADER)->0;
        lemma_parse_text_field_inverse(s1, TAG_HEADER_SIGNATURE);
        let (_, s2) = parse_text_field(s1, TAG_HEADER_SIGNATURE)->0;
        lemma_parse_fields_inverse(s2, TAG_TRANSACTION);
        let (items, _) = parse_fields(s2, TAG_TRANSACTION)->0;
        lemma_parse_transactions_inverse(items);
    }
}

/// Reading the encodings of batches gives the batches back.
pub proof fn lemma_parse_batches_of_encoding(batches: Seq<BatchView>)
    ensures
        parse_batches(encode_batches(batches)) == Some(batches),
{
    let items = encode_batches(batches);
    assert forall|i: int| 0 <= i < items.len() implies parse_batch(#[trigger] items[i]) == Some(
        batches[i],
    ) by {
        lemma_parse_batch_of_encoding(batches[i]);
    }
}

/// Items that read as batches are the encodings of those batches.
pub proof fn lemma_parse_batches_inverse(items: Seq<Seq<u8>>)
    ensures
        parse_batches(items) matches Some(batches) ==> items == encode_batches(batches),
{
    if let Some(batches) = parse_batches(items) {
        assert forall|i: int| 0 <= i < items.len() implies #[trigger] items[i] == encode_batch(
            batches[i],
        ) by {
            lemma_parse_batch_inverse(items[i]);
        }
    }
}

/// Writing a batch list and reading the message back gives the same list: the
/// same batches in the same order, each with the same header, signature and
/// transactions in the same order.
pub proof fn lemma_batch_list_round_trip(l: BatchListView)
    ensures
        parse_batch_list(encode_batch_list(l)) == Some(l),
{
    let items = encode_batches(l.batches);
    lemma_parse_fields_of_fields(TAG_BATCH, items, Seq::empty());
    lemma_parse_batches_of_encoding(l.batches);
}

/// Whatever reads as a batch list is the wire message of that list: no other
/// bytes stand for it.
pub proof fn lemma_parse_batch_list_inverse(s: Seq<u8>)
    ensures
        parse_batch_list(s) matches Some(l) ==> s == encode_batch_list(l),
{
    if let Some(l) = parse_batch_list(s) {
        lemma_parse_fields_inverse(s, TAG_BATCH);
        let (items, rest) = parse_fields(s, TAG_BATCH)->0;
        lemma_parse_batches_inverse(items);
    }
}

impl BatchHeader {
    /// Writes the canonical encoding of the header.
    pub fn to_bytes(&self) -> (bytes: Vec<u8>)
        ensures
            bytes@ == encode_batch_header(self@),
    {
        let mut out: Vec<u8> = Vec::new();
        put_text_field(&mut out, TAG_BATCH_SIGNER, self.signer_public_key.as_str());
        put_text_fields(&mut out, TAG_TRANSACTION_ID, &self.transaction_ids);
        out
    }

    /// Reads a header from its canonical encoding; any other input is refused.
    pub fn from_bytes(bytes: &[u8]) -> (res: Option<BatchHeader>)
        ensures
            match parse_batch_header(bytes@) {
                Some(h) => res matches Some(found) && found@ == h,
                None => res is None,
            },
    {
        let (signer_public_key, s1) = take_text_field(bytes, TAG_BATCH_SIGNER)?;
        let (transaction_ids, s2) = take_text_fields(s1, TAG_TRANSACTION_ID)?;
        if s2.len() != 0 {
            return None;
        }
        Some(BatchHeader { signer_public_key, transaction_ids })
    }
}

/// Appends the fields of the encodings of `transactions`, in order, to `out`.
fn put_transactions(out: &mut Vec<u8>, transactions: &Vec<Transaction>)
    ensures
        final(out)@ == old(out)@ + fields(
            TAG_TRANSACTION,
            encode_transactions(transactions.deep_view()),
        ),
{
    let ghost all = transactions.deep_view();
    let mut i: usize = 0;
    while i < transactions.len()
        invariant
            i <= transactions.len(),
            all == transactions.deep_view(),
            out@ == old(out)@ + fields(
                TAG_TRANSACTION,
                encode_transactions(all.take(i as int)),
            ),
        decreases transactions.len() - i,
    {
        let bytes = transactions[i].to_bytes();
        put_field(out, TAG_TRANSACTION, bytes.as_slice());
        proof {
            let done = encode_transactions(all.take(i as int));
            assert(encode_transactions(all.take(i + 1)) =~= done.push(bytes@));
            lemma_fields_push(TAG_TRANSACTION, done, bytes@);
        }
        i += 1;
    }
    assert(all.take(i as int) =~= all);
}

/// Reads each of `frames` as a transaction; `None` if one of them is none.
fn take_transactions(frames: &Vec<&[u8]>) -> (res: Option<Vec<Transaction>>)
    ensures
        match parse_transactions(frame_views(frames@)) {
            Some(transactions) => res matches Some(found) && found.deep_view() == transactions,
            None => res is None,
        },
{
    let ghost items = frame_views(frames@);
    let mut found: Vec<Transaction> = Vec::new();
    let mut i: usize = 0;
    while i < frames.len()
        invariant
            i <= frames.len(),
            items == frame_views(frames@),
            found.len() == i,
            forall|k: int| 0 <= k < i ==> parse_transaction(#[trigger] items[k]) == Some(found[k]@),
        decreases frames.len() - i,
    {
        match Transaction::from_bytes(frames[i]) {
            Some(transaction) => {
                found.push(transaction);
            },
            None => {
                assert(parse_transaction(items[i as int]) is None);
                return None;
            },
        }
        i += 1;
    }
    Some(found)
}

impl Batch {
    /// Writes the canonical encoding of the batch.
    pub fn to_bytes(&self) -> (bytes: Vec<u8>)
        ensures
            bytes@ == encode_batch(self@),
    {
        let mut out: Vec<u8> = Vec::new();
        put_field(&mut out, TAG_HEADER, self.header.as_slice());
        put_text_field(&mut out, TAG_HEADER_SIGNATURE, self.header_signature.as_str());
        put_transactions(&mut out, &self.transactions);
        out
    }

    /// Reads a batch from its canonical encoding; any other input is refused.
    pub fn from_bytes(bytes: &[u8]) -> (res: Option<Batch>)
        ensures
            match parse_batch(bytes@) {
                Some(b) => res matches Some(found) && found@ == b,
                None => res is None,
            },
    {
        let (header, s1) = take_field(bytes, TAG_HEADER)?;
        let (header_signature, s2) = take_text_field(s1, TAG_HEADER_SIGNATURE)?;
        let (frames, s3) = take_fields(s2, TAG_TRANSACTION)?;
        if s3.len() != 0 {
            return None;
        }
        let transactions = take_transactions(&frames)?;
        Some(Batch { header: slice_to_vec(header), header_signature, transactions })
    }
}

impl BatchList {
    /// Writes the wire message of the list.
    pub fn to_bytes(&self) -> (bytes: Vec<u8>)
        ensures
            bytes@ == encode_batch_list(self@),
            parse_batch_list(bytes@) == Some(self@),
    {
        let ghost all = self.batches.deep_view();
        let mut out: Vec<u8> = Vec::new();
        let mut i: usize = 0;
        while i < self.batches.len()
            invariant
                i <= self.batches.len(),
                all == self.batches.deep_view(),
                out@ == fields(TAG_BATCH, encode_batches(all.take(i as int))),
            decreases self.batches.len() - i,
        {
            let bytes = self.batches[i].to_bytes();
            put_field(&mut out, TAG_BATCH, bytes.as_slice());
            proof {
                let done = encode_batches(all.take(i as int));
                assert(encode_batches(all.take(i + 1)) =~= done.push(bytes@));
                lemma_fields_push(TAG_BATCH, done, bytes@);
            }
            i += 1;
        }
        proof {
            assert(all.take(i as int) =~= all);
            lemma_batch_list_round_trip(self@);
        }
        out
    }

    /// Reads a list from its wire message; any other input is refused.
    pub fn from_bytes(bytes: &[u8]) -> (res: Option<BatchList>)
        ensures
            match parse_batch_list(bytes@) {
                Some(l) => res matches Some(found) && found@ == l && bytes@ == encode_batch_list(
                    l,
                ),
                None => res is None,
            },
    {
        proof {
            lemma_parse_batch_list_inverse(bytes@);
        }
        let (frames, rest) = take_fields(bytes, TAG_BATCH)?;
        if rest.len() != 0 {
            return None;
        }
        let ghost items = frame_views(frames@);
        let mut found: Vec<Batch> = Vec::new();
        let mut i: usize = 0;
        while i < frames.len()
            invariant
                i <= frames.len(),
                items == frame_views(frames@),
                parse_fields(bytes@, TAG_BATCH) == Some((items, rest@)),
                rest@.len() == 0,
                found.len() == i,
                forall|k: int| 0 <= k < i ==> parse_batch(#[trigger] items[k]) == Some(found[k]@),
            decreases frames.len() - i,
        {
            match Batch::from_bytes(frames[i]) {
                Some(batch) => {
                    found.push(batch);
                },
                None => {
                    assert(parse_batch(items[i as int]) is None);
                    return None;
                },
            }
            i += 1;
        }
        assert(found.deep_view() =~= parse_batches(items)->0);
        Some(BatchList { batches: found })
    }
}

/// The identity of each transaction of `transactions`, in order.
pub open spec fn ids_of(transactions: Seq<TransactionView>) -> Seq<Seq<char>> {
    Seq::new(transactions.len(), |i: int| transaction_id_spec(transactions[i].header))
}

/// The identity of a batch: the SHA-512 digest of its encoded header, as
/// hexadecimal text.
pub open spec fn batch_id_spec(header: Seq<u8>) -> Seq<char> {
    sha512_hex_spec(header)
}

/// The header of the batch of `transactions` signed under `public_key`.
pub open spec fn batch_header_for(
    transactions: Seq<TransactionView>,
    public_key: Seq<char>,
) -> BatchHeaderView {
    BatchHeaderView { signer_public_key: public_key, transaction_ids: ids_of(transactions) }
}

/// The batch made of an encoded header, the transactions and what the signer
/// answered: there is one exactly when the signer gave a signature and that
/// signature was accepted on checking.
pub open spec fn assembled_batch(
    header: Seq<u8>,
    transactions: Seq<TransactionView>,
    signature: Option<Seq<char>>,
    accepted: bool,
) -> Option<BatchView> {
    match signature {
        Some(header_signature) => if accepted {
            Some(BatchView { header, header_signature, transactions })
        } else {
            None
        },
        None => None,
    }
}

/// The batch that `BatchBuilder::build` makes of `transactions`, where
/// `private_key` is the signer's key; `None` where signing fails.
pub open spec fn built_batch(
    transactions: Seq<TransactionView>,
    private_key: Seq<char>,
) -> Option<BatchView> {
    match public_key_of(private_key) {
        Some(public_key) => {
            let header = encode_batch_header(batch_header_for(transactions, public_key));
            let signature = signature_of(header, private_key);
            assembled_batch(
                header,
                transactions,
                signature,
                signature is Some && signature_valid(signature->0, header, public_key),
            )
        },
        None => None,
    }
}

/// What holds of a batch that can be trusted: its header reads as a header, its
/// signature verifies over the encoded header under the signer's key named in
/// that header, and the header lists the identities of the batch's transactions
/// in their order.
pub open spec fn batch_valid(b: BatchView) -> bool {
    match parse_batch_header(b.header) {
        Some(h) => signature_valid(b.header_signature, b.header, h.signer_public_key)
            && h.transaction_ids == ids_of(b.transactions),
        None => false,
    }
}

/// Every batch that the builder makes is valid. It holds the transactions in the
/// order in which they were added, and its signed header lists their identities
/// in that same order.
pub proof fn lemma_built_batch_valid(transactions: Seq<TransactionView>, private_key: Seq<char>)
    ensures
        built_batch(transactions, private_key) matches Some(b) ==> {
            &&& batch_valid(b)
            &&& b.transactions == transactions
            &&& public_key_of(private_key) matches Some(public_key)
            &&& parse_batch_header(b.header) == Some(batch_header_for(transactions, public_key))
            &&& parse_batch_header(b.header)->0.transaction_ids == ids_of(transactions)
        },
{
    if let Some(public_key) = public_key_of(private_key) {
        lemma_parse_batch_header_of_encoding(batch_header_for(transactions, public_key));
    }
}

/// Batches built under one key from transactions whose identities differ, or
/// come in another order, have different signed headers.
pub proof fn lemma_order_changes_signed_header(
    first: Seq<TransactionView>,
    second: Seq<TransactionView>,
    private_key: Seq<char>,
)
    requires
        ids_of(first) != ids_of(second),
    ensures
        built_batch(first, private_key) matches Some(a) ==> (built_batch(second, private_key)
            matches Some(b) ==> a.header != b.header),
{
    if let Some(public_key) = public_key_of(private_key) {
        let a = batch_header_for(first, public_key);
        let b = batch_header_for(second, public_key);
        if encode_batch_header(a) == encode_batch_header(b) {
            lemma_encode_batch_header_injective(a, b);
        }
    }
}

/// A transaction with the identity that was recorded when it was added.
struct Recorded {
    id: String,
    transaction: Transaction,
}

/// Gathers transactions, in the order in which they are added, into one batch.
pub struct BatchBuilder {
    signer: SigningContext,
    entries: Vec<Recorded>,
}

impl BatchBuilder {
    #[verifier::type_invariant]
    spec fn consistent(self) -> bool {
        forall|i: int|
            0 <= i < self.entries@.len() ==> (#[trigger] self.entries@[i]).id@
                == transaction_id_spec(self.entries@[i].transaction@.header)
    }

    /// The transactions added so far, in the order in which they were added.
    pub closed spec fn transactions(&self) -> Seq<TransactionView> {
        Seq::new(self.entries@.len(), |i: int| self.entries@[i].transaction@)
    }

    /// The identities recorded so far, in the order in which they were recorded.
    pub closed spec fn recorded_ids(&self) -> Seq<Seq<char>> {
        Seq::new(self.entries@.len(), |i: int| self.entries@[i].id@)
    }

    /// The private key of the signer, as hexadecimal text.
    pub closed spec fn private_key(&self) -> Seq<char> {
        self.signer.private_key()
    }

    /// Starts a batch that `signer` will sign; it has no transaction yet.
    pub fn new(signer: SigningContext) -> (builder: BatchBuilder)
        ensures
            builder.transactions() == Seq::<TransactionView>::empty(),
            builder.recorded_ids() == Seq::<Seq<char>>::empty(),
            builder.private_key() == signer.private_key(),
    {
        let builder = BatchBuilder { signer, entries: Vec::new() };
        builder
    }

    /// The number of transactions added so far.
    pub fn len(&self) -> (n: usize)
        ensures
            n == self.transactions().len(),
    {
        self.entries.len()
    }

    /// Adds `transaction` behind those added before, and records its identity.
    pub fn add_transaction(self, transaction: Transaction) -> (builder: BatchBuilder)
        ensures
            builder.transactions() == self.transactions().push(transaction@),
            builder.recorded_ids() == self.recorded_ids().push(
                transaction_id_spec(transaction@.header),
            ),
            builder.recorded_ids() == ids_of(builder.transactions()),
            builder.private_key() == self.private_key(),
    {
        proof {
            use_type_invariant(&self);
        }
        let id = transaction.id();
        let BatchBuilder { signer, mut entries } = self;
        entries.push(Recorded { id, transaction });
        let builder = BatchBuilder { signer, entries };
        builder
    }

    /// Finishes the batch: signs a header that lists the recorded identities in
    /// their order, checks the signature against the signer's public key, and
    /// hands out the batch. A batch without transactions is refused with
    /// `EmptyBatchError`; `SigningError` where the signer gives no signature that
    /// verifies.
    pub fn build(self) -> (res: Result<Batch, GatewayError>)
        ensures
            self.transactions().len() == 0 ==> res == Err::<Batch, GatewayError>(
                GatewayError::EmptyBatchError,
            ),
            self.transactions().len() > 0 ==> match built_batch(
                self.transactions(),
                self.private_key(),
            ) {
                Some(b) => res matches Ok(found) && found@ == b && batch_valid(b),
                None => res == Err::<Batch, GatewayError>(GatewayError::SigningError),
            },
    {
        proof {
            use_type_invariant(&self);
        }
        let ghost wanted = self.transactions();
        let BatchBuilder { signer, entries } = self;
        if entries.len() == 0 {
            return Err(GatewayError::EmptyBatchError);
        }
        let ghost all = entries@;
        let mut transaction_ids: Vec<String> = Vec::new();
        let mut transactions: Vec<Transaction> = Vec::new();
        for entry in it: entries.into_iter()
            invariant
                it.seq() == all,
                transaction_ids.len() == it.index(),
                transactions.len() == it.index(),
                forall|k: int| 0 <= k < it.index() ==> (#[trigger] transaction_ids[k])@ == all[k].id@,
                forall|k: int|
                    0 <= k < it.index() ==> (#[trigger] transactions[k])@ == all[k].transaction@,
        {
            transaction_ids.push(entry.id);
            transactions.push(entry.transaction);
        }
        let public_key = signer.public_key_hex();
        let header = BatchHeader { signer_public_key: public_key.clone(), transaction_ids };
        proof {
            assert(transactions.deep_view() =~= wanted);
            assert(header@.transaction_ids =~= ids_of(wanted));
            lemma_built_batch_valid(wanted, signer.private_key());
        }
        let bytes = header.to_bytes();
        let signature = signer.sign(bytes.as_slice());
        let accepted = match &signature {
            Ok(text) => verify(text.as_str(), bytes.as_slice(), public_key.as_str()),
            Err(_) => false,
        };
        Batch::assemble(bytes, transactions, signature, accepted)
    }

    /// Finishes the batch and puts it, alone, into a list that is ready to be
    /// written to the wire. Fails as `build` does.
    pub fn create_batch_list(self) -> (res: Result<BatchList, GatewayError>)
        ensures
            self.transactions().len() == 0 ==> res == Err::<BatchList, GatewayError>(
                GatewayError::EmptyBatchError,
            ),
            self.transactions().len() > 0 ==> match built_batch(
                self.transactions(),
                self.private_key(),
            ) {
                Some(b) => res matches Ok(found) && found@.batches == seq![b] && batch_valid(b),
                None => res == Err::<BatchList, GatewayError>(GatewayError::SigningError),
            },
    {
        match self.build() {
            Ok(batch) => {
                let mut batches: Vec<Batch> = Vec::new();
                batches.push(batch);
                let list = BatchList { batches };
                Ok(list)
            },
            Err(error) => Err(error),
        }
    }
}

impl Batch {
    /// Puts a batch together from its encoded header, its transactions and what
    /// the signer answered. `accepted` tells whether the signature verified.
    pub fn assemble(
        header: Vec<u8>,
        transactions: Vec<Transaction>,
        signature: Result<String, GatewayError>,
        accepted: bool,
    ) -> (res: Result<Batch, GatewayError>)
        ensures
            match assembled_batch(
                header@,
                transactions.deep_view(),
                match signature {
                    Ok(text) => Some(text@),
                    Err(_) => None,
                },
                accepted,
            ) {
                Some(b) => res matches Ok(found) && found@ == b,
                None => res == Err::<Batch, GatewayError>(GatewayError::SigningError),
            },
    {
        match signature {
            Ok(header_signature) => {
                if accepted {
                    Ok(Batch { header, header_signature, transactions })
                } else {
                    Err(GatewayError::SigningError)
                }
            },
            Err(_) => Err(GatewayError::SigningError),
        }
    }

    /// The identity of the batch.
    pub fn id(&self) -> (id: String)
        ensures
            id@ == batch_id_spec(self@.header),
            id@.len() == 128,
    {
        sha512_hex(self.header.as_slice())
    }

    /// Checks the batch: that its header reads as a header, that its signature
    /// verifies under the signer's key named there, and that the header lists
    /// the identities of the transactions in their order.
    pub fn verify(&self) -> (valid: bool)
        ensures
            valid == batch_valid(self@),
    {
        let header = match BatchHeader::from_bytes(self.header.as_slice()) {
            Some(header) => header,
            None => {
                return false;
            },
        };
        if !verify(
            self.header_signature.as_str(),
            self.header.as_slice(),
            header.signer_public_key.as_str(),
        ) {
            return false;
        }
        let ghost listed = header@.transaction_ids;
        let ghost wanted = ids_of(self@.transactions);
        assert(wanted.len() == self.transactions.len());
        if header.transaction_ids.len() != self.transactions.len() {
            return false;
        }
        let mut i: usize = 0;
        while i < self.transactions.len()
            invariant
                i <= self.transactions.len(),
                parse_batch_header(self@.header) == Some(header@),
                listed == header@.transaction_ids,
                wanted == ids_of(self@.transactions),
                listed.len() == wanted.len(),
                wanted.len() == self.transactions.len(),
                forall|k: int| 0 <= k < i ==> listed[k] == wanted[k],
            decreases self.transactions.len() - i,
        {
            let id = self.transactions[i].id();
            assert(listed[i as int] == header.transaction_ids[i as int]@);
            if header.transaction_ids[i] != id {
                return false;
            }
            i += 1;
        }
        assert(listed =~= wanted);
        true
    }
}

/// The list of the one batch of the one transaction that is built from the
/// arguments; `None` where signing fails.
pub open spec fn single_batch_list(
    family_name: Seq<char>,
    family_version: Seq<char>,
    payload: Seq<u8>,
    inputs: Seq<Seq<char>>,
    outputs: Seq<Seq<char>>,
    private_key: Seq<char>,
) -> Option<BatchListView> {
    match built_transaction(family_name, family_version, payload, inputs, outputs, private_key) {
        Some(transaction) => match built_batch(seq![transaction], private_key) {
            Some(batch) => Some(BatchListView { batches: seq![batch] }),
            None => None,
        },
        None => None,
    }
}

impl BatchList {
    /// Builds one transaction over `payload`, puts it alone into a batch and
    /// that batch alone into a list, all signed by `signer`.
    pub fn of_payload(
        family_name: &str,
        family_version: &str,
        payload: Vec<u8>,
        inputs: Vec<String>,
        outputs: Vec<String>,
        signer: SigningContext,
    ) -> (res: Result<BatchList, GatewayError>)
        ensures
            match single_batch_list(
                family_name@,
                family_version@,
                payload@,
                inputs.deep_view(),
                outputs.deep_view(),
                signer.private_key(),
            ) {
                Some(list) => res matches Ok(found) && found@ == list && batch_valid(
                    list.batches[0],
                ) && transaction_valid(list.batches[0].transactions[0]),
                None => res == Err::<BatchList, GatewayError>(GatewayError::SigningError),
            },
    {
        let transaction = match TransactionBuilder::build(
            family_name,
            family_version,
            payload,
            inputs,
            outputs,
            &signer,
        ) {
            Ok(transaction) => transaction,
            Err(_) => {
                return Err(GatewayError::SigningError);
            },
        };
        let builder = BatchBuilder::new(signer).add_transaction(transaction);
        match builder.create_batch_list() {
            Ok(list) => Ok(list),
            Err(_) => Err(GatewayError::SigningError),
        }
    }

    /// The identity of the first batch of the list, if there is one.
    pub fn first_id(&self) -> (id: Option<String>)
        ensures
            self@.batches.len() == 0 ==> id is None,
            self@.batches.len() > 0 ==> (id matches Some(text) && text@ == batch_id_spec(
                self@.batches[0].header,
            )),
    {
        if self.batches.len() == 0 {
            None
        } else {
            Some(self.batches[0].id())
        }
    }
}

} // verus!
