//! What each route asks of the ledger and what it answers.
//!
//! A handler never talks to the ledger here. It is told which call to make,
//! makes it elsewhere, and hands the outcome back; the functions below turn
//! that outcome into the reply. Every failure of a call becomes the same
//! reply: status 500 with the generic sentence. Only a missing identifier is
//! told apart, as status 404 with a message that names the identifier.

use crate::decimal::{decimal_string, decimal_text};
use crate::errors::{generic_message, ShopCustomError};
use crate::modals::{catalog_view, Good, GoodView};
use vstd::prelude::*;
use vstd::string::StringExecFns;

verus! {

/// One request to the ledger program.
#[derive(Clone, Debug, PartialEq, Eq)]
pub enum LedgerCall {
    /// Create the catalog account.
    Initialize,
    /// Read the catalog account.
    ReadCatalog,
    InsertGoods(Good),
    UpdateGoods(Good),
    /// Delete the good with this identifier.
    DeleteGoods(u64),
    DeleteAllGoods,
}

pub enum LedgerCallView {
    Initialize,
    ReadCatalog,
    InsertGoods(GoodView),
    UpdateGoods(GoodView),
    DeleteGoods(u64),
    DeleteAllGoods,
}

impl View for LedgerCall {
    type V = LedgerCallView;

    open spec fn view(&self) -> LedgerCallView {
        match *self {
            LedgerCall::Initialize => LedgerCallView::Initialize,
            LedgerCall::ReadCatalog => LedgerCallView::ReadCatalog,
            LedgerCall::InsertGoods(g) => LedgerCallView::InsertGoods(g@),
            LedgerCall::UpdateGoods(g) => LedgerCallView::UpdateGoods(g@),
            LedgerCall::DeleteGoods(id) => LedgerCallView::DeleteGoods(id),
            LedgerCall::DeleteAllGoods => LedgerCallView::DeleteAllGoods,
        }
    }
}

impl LedgerCall {
    /// Whether the call only reads the account, so that no transaction is sent.
    pub fn is_read(&self) -> (b: bool)
        ensures
            b == (self@ is ReadCatalog),
    {
        match self {
            LedgerCall::ReadCatalog => true,
            _ => false,
        }
    }

    /// Whether the catalog key has to sign next to the payer: only the call
    /// that creates the account asks for it.
    pub fn needs_catalog_signature(&self) -> (b: bool)
        ensures
            b == (self@ is Initialize),
    {
        match self {
            LedgerCall::Initialize => true,
            _ => false,
        }
    }
}

/// An HTTP reply.
#[derive(Clone, Debug, PartialEq, Eq)]
pub enum Reply {
    /// 200 with a plain text body.
    Text(String),
    /// 200 with the catalog as a JSON array.
    GoodsList(Vec<Good>),
    /// 200 with one good as JSON.
    OneGood(Good),
    /// 201 with a `Location` header and the good as JSON.
    Created(String, Good),
    /// 204 without a body.
    NoContent,
    /// 404 with a message.
    NotFound(String),
    /// 500 with a message.
    InternalError(String),
}

pub enum ReplyView {
    Text(Seq<char>),
    GoodsList(Seq<GoodView>),
    OneGood(GoodView),
    Created(Seq<char>, GoodView),
    NoContent,
    NotFound(Seq<char>),
    InternalError(Seq<char>),
}

impl View for Reply {
    type V = ReplyView;

    open spec fn view(&self) -> ReplyView {
        match *self {
            Reply::Text(body) => ReplyView::Text(body@),
            Reply::GoodsList(goods) => ReplyView::GoodsList(catalog_view(goods@)),
            Reply::OneGood(good) => ReplyView::OneGood(good@),
            Reply::Created(location, good) => ReplyView::Created(location@, good@),
            Reply::NoContent => ReplyView::NoContent,
            Reply::NotFound(message) => ReplyView::NotFound(message@),
            Reply::InternalError(message) => ReplyView::InternalError(message@),
        }
    }
}

/// The status code of a reply.
pub open spec fn status_of(reply: ReplyView) -> int {
    match reply {
        ReplyView::Text(_) => 200,
        ReplyView::GoodsList(_) => 200,
        ReplyView::OneGood(_) => 200,
        ReplyView::Created(_, _) => 201,
        ReplyView::NoContent => 204,
        ReplyView::NotFound(_) => 404,
        ReplyView::InternalError(_) => 500,
    }
}

impl Reply {
    pub fn status(&self) -> (code: u16)
        ensures
            code == status_of(self@),
    {
        match self {
            Reply::Text(_) => 200,
            Reply::GoodsList(_) => 200,
            Reply::OneGood(_) => 200,
            Reply::Created(_, _) => 201,
            Reply::NoContent => 204,
            Reply::NotFound(_) => 404,
            Reply::InternalError(_) => 500,
        }
    }
}

/// What a call that sends a transaction came to: the transaction identifier,
/// or the diagnostic text of the failure.
pub open spec fn sent_view(outcome: Result<String, ShopCustomError>) -> Result<
    Seq<char>,
    Seq<char>,
> {
    match outcome {
        Ok(tx_id) => Ok(tx_id@),
        Err(e) => Err(e@),
    }
}

/// What a read of the catalog came to: the snapshot, or the diagnostic text
/// of the failure.
pub open spec fn read_view(outcome: Result<Vec<Good>, ShopCustomError>) -> Result<
    Seq<GoodView>,
    Seq<char>,
> {
    match outcome {
        Ok(goods) => Ok(catalog_view(goods@)),
        Err(e) => Err(e@),
    }
}

/// The reply to every failure but a missing identifier.
pub open spec fn failure_reply() -> ReplyView {
    ReplyView::InternalError(generic_message())
}

/// The message of a 404: it names the identifier that was asked for.
pub open spec fn not_found_text(good_id: u64) -> Seq<char> {
    "Resource with id:"@ + decimal_text(good_id as nat) + " Not Found"@
}

/// The path under which a good can be read back.
pub open spec fn location_text(good_id: u64) -> Seq<char> {
    "/goods/"@ + decimal_text(good_id as nat)
}

/// Whether `i` is the first place in `goods` that holds the identifier.
pub open spec fn is_first_with_id(goods: Seq<GoodView>, good_id: u64, i: int) -> bool {
    &&& 0 <= i < goods.len()
    &&& goods[i].id == good_id
    &&& forall|j: int| 0 <= j < i ==> (#[trigger] goods[j]).id != good_id
}

/// Whether some good in `goods` has the identifier.
pub open spec fn holds_id(goods: Seq<GoodView>, good_id: u64) -> bool {
    exists|i: int| is_first_with_id(goods, good_id, i)
}

/// The first good in `goods` with the identifier, where there is one.
pub open spec fn first_with_id(goods: Seq<GoodView>, good_id: u64) -> GoodView
    recommends
        holds_id(goods, good_id),
{
    goods[choose|i: int| is_first_with_id(goods, good_id, i)]
}

pub open spec fn reply_to_initialize(outcome: Result<Seq<char>, Seq<char>>) -> ReplyView {
    match outcome {
        Ok(tx_id) => ReplyView::Text(tx_id),
        Err(_) => failure_reply(),
    }
}

pub open spec fn reply_to_get_all_goods(outcome: Result<Seq<GoodView>, Seq<char>>) -> ReplyView {
    match outcome {
        Ok(goods) => ReplyView::GoodsList(goods),
        Err(_) => failure_reply(),
    }
}

pub open spec fn reply_to_insert_goods(
    good: GoodView,
    outcome: Result<Seq<char>, Seq<char>>,
) -> ReplyView {
    match outcome {
        Ok(_) => ReplyView::Created(location_text(good.id), good),
        Err(_) => failure_reply(),
    }
}

pub open spec fn reply_to_get_specific_good(
    good_id: u64,
    outcome: Result<Seq<GoodView>, Seq<char>>,
) -> ReplyView {
    match outcome {
        Ok(goods) => if holds_id(goods, good_id) {
            ReplyView::OneGood(first_with_id(goods, good_id))
        } else {
            ReplyView::NotFound(not_found_text(good_id))
        },
        Err(_) => failure_reply(),
    }
}

pub open spec fn reply_to_update_goods(
    good: GoodView,
    outcome: Result<Seq<char>, Seq<char>>,
) -> ReplyView {
    match outcome {
        Ok(_) => ReplyView::OneGood(good),
        Err(_) => failure_reply(),
    }
}

pub open spec fn reply_to_delete(outcome: Result<Seq<char>, Seq<char>>) -> ReplyView {
    match outcome {
        Ok(_) => ReplyView::NoContent,
        Err(_) => failure_reply(),
    }
}

/// The reply to a failed call: status 500 and the generic sentence. The
/// diagnostic text stays behind.
pub fn failure(error: &ShopCustomError) -> (reply: Reply)
    ensures
        reply@ == failure_reply(),
{
    Reply::InternalError(error.user_message())
}

/// The message of a 404 for `good_id`.
pub fn not_found_message(good_id: u64) -> (message: String)
    ensures
        message@ == not_found_text(good_id),
{
    let mut message = String::from_str("Resource with id:");
    let digits = decimal_string(good_id);
    message.append(digits.as_str());
    message.append(" Not Found");
    message
}

/// The `Location` of a good that was just inserted.
pub fn location_of(good_id: u64) -> (location: String)
    ensures
        location@ == location_text(good_id),
{
    let mut location = String::from_str("/goods/");
    let digits = decimal_string(good_id);
    location.append(digits.as_str());
    location
}

/// Looks for the first good with the identifier.
pub fn find_good(goods: &Vec<Good>, good_id: u64) -> (found: Option<usize>)
    ensures
        found matches Some(i) ==> is_first_with_id(catalog_view(goods@), good_id, i as int),
        found is None ==> !holds_id(catalog_view(goods@), good_id),
{
    let ghost snapshot = catalog_view(goods@);
    let mut i: usize = 0;
    while i < goods.len()
        invariant
            i <= goods.len(),
            snapshot == catalog_view(goods@),
            forall|j: int| 0 <= j < i ==> (#[trigger] snapshot[j]).id != good_id,
        decreases goods.len() - i,
    {
        if goods[i].id == good_id {
            return Some(i);
        }
        i += 1;
    }
    proof {
        found_nothing(snapshot, good_id);
    }
    None
}

proof fn found_nothing(goods: Seq<GoodView>, good_id: u64)
    requires
        forall|j: int| 0 <= j < goods.len() ==> (#[trigger] goods[j]).id != good_id,
    ensures
        !holds_id(goods, good_id),
{
    if holds_id(goods, good_id) {
        let i = choose|i: int| is_first_with_id(goods, good_id, i);
        assert(goods[i].id == good_id);
    }
}

/// Two first places with one identifier are the same place.
pub proof fn lemma_first_with_id_unique(goods: Seq<GoodView>, good_id: u64, i: int, k: int)
    requires
        is_first_with_id(goods, good_id, i),
        is_first_with_id(goods, good_id, k),
    ensures
        i == k,
{
    if i < k {
        assert(goods[i].id != good_id);
    } else if k < i {
        assert(goods[k].id != good_id);
    }
}

/// `POST /initialize`: the call to make.
pub fn initialize_call() -> (call: LedgerCall)
    ensures
        call@ == LedgerCallView::Initialize,
{
    LedgerCall::Initialize
}

/// `POST /initialize`: 200 with the transaction identifier, or the failure
/// reply.
pub fn initialize(outcome: Result<String, ShopCustomError>) -> (reply: Reply)
    ensures
        reply@ == reply_to_initialize(sent_view(outcome)),
{
    match outcome {
        Ok(tx_id) => Reply::Text(tx_id),
        Err(e) => failure(&e),
    }
}

/// `GET /goods`: 200 with the snapshot, or the failure reply.
pub fn get_all_goods(outcome: Result<Vec<Good>, ShopCustomError>) -> (reply: Reply)
    ensures
        reply@ == reply_to_get_all_goods(read_view(outcome)),
{
    match outcome {
        Ok(goods) => Reply::GoodsList(goods),
        Err(e) => failure(&e),
    }
}

/// `POST /goods`: the call to make for the submitted good.
pub fn insert_goods_call(good: &Good) -> (call: LedgerCall)
    ensures
        call@ == LedgerCallView::InsertGoods(good@),
{
    LedgerCall::InsertGoods(good.duplicate())
}

/// `POST /goods`: 201 with the good's location and the submitted good, or the
/// failure reply.
pub fn insert_goods(good: Good, outcome: Result<String, ShopCustomError>) -> (reply: Reply)
    ensures
        reply@ == reply_to_insert_goods(good@, sent_view(outcome)),
{
    match outcome {
        Ok(_) => {
            let location = location_of(good.id);
            Reply::Created(location, good)
        },
        Err(e) => failure(&e),
    }
}

/// `GET /goods/{id}`: 200 with the first good that has the identifier, 404
/// where the snapshot holds none, or the failure reply.
pub fn get_specific_good(good_id: u64, outcome: Result<Vec<Good>, ShopCustomError>) -> (reply:
    Reply)
    ensures
        reply@ == reply_to_get_specific_good(good_id, read_view(outcome)),
{
    match outcome {
        Ok(goods) => {
            match find_good(&goods, good_id) {
                Some(i) => {
                    proof {
                        let snapshot = catalog_view(goods@);
                        let k = choose|k: int| is_first_with_id(snapshot, good_id, k);
                        lemma_first_with_id_unique(snapshot, good_id, i as int, k);
                    }
                    Reply::OneGood(goods[i].duplicate())
                },
                None => Reply::NotFound(not_found_message(good_id)),
            }
        },
        Err(e) => failure(&e),
    }
}

/// `PUT /goods/{id}`: the call to make. The good in the body is what is
/// stored; the identifier in the path plays no part.
pub fn update_goods_call(good: &Good) -> (call: LedgerCall)
    ensures
        call@ == LedgerCallView::UpdateGoods(good@),
{
    LedgerCall::UpdateGoods(good.duplicate())
}

/// `PUT /goods/{id}`: 200 with the submitted good, or the failure reply.
pub fn update_goods(good: Good, outcome: Result<String, ShopCustomError>) -> (reply: Reply)
    ensures
        reply@ == reply_to_update_goods(good@, sent_view(outcome)),
{
    match outcome {
        Ok(_) => Reply::OneGood(good),
        Err(e) => failure(&e),
    }
}

/// Where `DELETE /goods/{id}` stands: it reads the catalog first and deletes
/// only what it found.
#[derive(Debug, PartialEq, Eq)]
pub enum DeleteStage {
    /// Nothing was done yet.
    Start,
    /// The catalog was read.
    CatalogRead(Result<Vec<Good>, ShopCustomError>),
    /// The deletion was sent.
    DeletionSent(Result<String, ShopCustomError>),
}

/// What a handler does next.
#[derive(Clone, Debug, PartialEq, Eq)]
pub enum Step {
    /// Make this call and come back with its outcome.
    Call(LedgerCall),
    /// Answer the request.
    Respond(Reply),
}

pub enum StepView {
    Call(LedgerCallView),
    Respond(ReplyView),
}

impl View for Step {
    type V = StepView;

    open spec fn view(&self) -> StepView {
        match *self {
            Step::Call(call) => StepView::Call(call@),
            Step::Respond(reply) => StepView::Respond(reply@),
        }
    }
}

/// What `DELETE /goods/{id}` does at each stage.
pub open spec fn delete_goods_step(good_id: u64, stage: DeleteStage) -> StepView {
    match stage {
        DeleteStage::Start => StepView::Call(LedgerCallView::ReadCatalog),
        DeleteStage::CatalogRead(outcome) => match read_view(outcome) {
            Ok(goods) => if holds_id(goods, good_id) {
                StepView::Call(LedgerCallView::DeleteGoods(good_id))
            } else {
                StepView::Respond(ReplyView::NotFound(not_found_text(good_id)))
            },
            Err(_) => StepView::Respond(failure_reply()),
        },
        DeleteStage::DeletionSent(outcome) => StepView::Respond(
            reply_to_delete(sent_view(outcome)),
        ),
    }
}

/// `DELETE /goods/{id}`: read the catalog; answer 404 where the identifier
/// is absent, else send the deletion and answer 204. A failed call at either
/// stage gives the failure reply.
pub fn delete_goods(good_id: u64, stage: DeleteStage) -> (step: Step)
    ensures
        step@ == delete_goods_step(good_id, stage),
{
    match stage {
        DeleteStage::Start => Step::Call(LedgerCall::ReadCatalog),
        DeleteStage::CatalogRead(outcome) => match outcome {
            Ok(goods) => match find_good(&goods, good_id) {
                Some(_) => Step::Call(LedgerCall::DeleteGoods(good_id)),
                None => Step::Respond(Reply::NotFound(not_found_message(good_id))),
            },
            Err(e) => Step::Respond(failure(&e)),
        },
        DeleteStage::DeletionSent(outcome) => match outcome {
            Ok(_) => Step::Respond(Reply::NoContent),
            Err(e) => Step::Respond(failure(&e)),
        },
    }
}

/// `DELETE /goods`: the call to make.
pub fn delete_all_goods_call() -> (call: LedgerCall)
    ensures
        call@ == LedgerCallView::DeleteAllGoods,
{
    LedgerCall::DeleteAllGoods
}

/// `DELETE /goods`: 204, or the failure reply.
pub fn delete_all_goods(outcome: Result<String, ShopCustomError>) -> (reply: Reply)
    ensures
        reply@ == reply_to_delete(sent_view(outcome)),
{
    match outcome {
        Ok(_) => Reply::NoContent,
        Err(e) => failure(&e),
    }
}

/// The call behind both routes that read the catalog.
pub fn read_catalog_call() -> (call: LedgerCall)
    ensures
        call@ == LedgerCallView::ReadCatalog,
{
    LedgerCall::ReadCatalog
}

/// A call that failed, for whatever reason, is answered in one way on every
/// route: status 500 with the generic sentence. The diagnostic text of the
/// failure has no part in the reply.
pub proof fn lemma_failure_is_answered_alike(detail: Seq<char>, good: GoodView, good_id: u64)
    ensures
        failure_reply() == ReplyView::InternalError(generic_message()),
        status_of(failure_reply()) == 500,
        reply_to_initialize(Err(detail)) == failure_reply(),
        reply_to_get_all_goods(Err(detail)) == failure_reply(),
        reply_to_insert_goods(good, Err(detail)) == failure_reply(),
        reply_to_get_specific_good(good_id, Err(detail)) == failure_reply(),
        reply_to_update_goods(good, Err(detail)) == failure_reply(),
        reply_to_delete(Err(detail)) == failure_reply(),
{
}

/// The replies to reading the catalog depend on nothing but the outcome of
/// the read: two reads that come to the same outcome are answered alike.
pub proof fn lemma_equal_reads_are_answered_alike(
    first: Result<Seq<GoodView>, Seq<char>>,
    second: Result<Seq<GoodView>, Seq<char>>,
    good_id: u64,
)
    requires
        first == second,
    ensures
        reply_to_get_all_goods(first) == reply_to_get_all_goods(second),
        reply_to_get_specific_good(good_id, first) == reply_to_get_specific_good(good_id, second),
{
}

/// A good that the snapshot does not hold is answered with status 404 and
/// the message that names its identifier.
pub proof fn lemma_absent_good_is_not_found(goods: Seq<GoodView>, good_id: u64)
    requires
        forall|i: int| 0 <= i < goods.len() ==> (#[trigger] goods[i]).id != good_id,
    ensures
        reply_to_get_specific_good(good_id, Ok(goods)) == ReplyView::NotFound(
            not_found_text(good_id),
        ),
        status_of(reply_to_get_specific_good(good_id, Ok(goods))) == 404,
{
    found_nothing(goods, good_id);
}

} // verus!
