use shop_bridge::errors::ShopCustomError;
use shop_bridge::modals::{Good, ShopConfigurations};
use shop_bridge::routes::{
    delete_goods, get_all_goods, get_specific_good, initialize, initialize_call, insert_goods,
    insert_goods_call, read_catalog_call, DeleteStage, LedgerCall, Reply, Step,
};
use shop_bridge::thread_utils::{conclude, worker_task, WorkerExit};
use solana_sdk::signature::Keypair;

const GENERIC: &str = "an internal error occurred, please try again later";

/// A stand-in for the ledger program: one account, created by `Initialize`.
struct Ledger {
    account: Option<Vec<Good>>,
    sent: u64,
}

enum Outcome {
    Sent(Result<String, ShopCustomError>),
    Read(Result<Vec<Good>, ShopCustomError>),
}

impl Ledger {
    fn new() -> Ledger {
        Ledger { account: None, sent: 0 }
    }

    fn perform(&mut self, call: LedgerCall) -> Outcome {
        if let LedgerCall::ReadCatalog = call {
            return match &self.account {
                Some(goods) => Outcome::Read(Ok(goods.clone())),
                None => Outcome::Read(Err(ShopCustomError("AccountNotFound".to_string()))),
            };
        }
        if let LedgerCall::Initialize = call {
            if self.account.is_some() {
                return Outcome::Sent(Err(ShopCustomError("already in use".to_string())));
            }
            self.account = Some(Vec::new());
        } else {
            let goods = match self.account.as_mut() {
                Some(goods) => goods,
                None => return Outcome::Sent(Err(ShopCustomError("AccountNotFound".to_string()))),
            };
            match call {
                LedgerCall::InsertGoods(good) => goods.push(good),
                LedgerCall::UpdateGoods(good) => {
                    for slot in goods.iter_mut() {
                        if slot.id == good.id {
                            *slot = good.clone();
                        }
                    }
                }
                LedgerCall::DeleteGoods(id) => goods.retain(|g| g.id != id),
                _ => goods.clear(),
            }
        }
        self.sent += 1;
        Outcome::Sent(Ok(format!("signature{}", self.sent)))
    }

    fn send(&mut self, call: LedgerCall) -> Result<String, ShopCustomError> {
        match self.perform(call) {
            Outcome::Sent(result) => result,
            Outcome::Read(_) => panic!("a read sends nothing"),
        }
    }

    fn read(&mut self) -> Result<Vec<Good>, ShopCustomError> {
        match self.perform(read_catalog_call()) {
            Outcome::Read(result) => result,
            Outcome::Sent(_) => panic!("a read was asked for"),
        }
    }
}

fn unga() -> Good {
    Good { id: 1, name: "unga".to_string(), image: "image1".to_string(), price: 26 }
}

fn configurations() -> ShopConfigurations {
    ShopConfigurations {
        host: "127.0.0.1".to_string(),
        port: "8080".to_string(),
        program_id: "11111111111111111111111111111111".to_string(),
        cluster: "localnet".to_string(),
        cluster_url: String::new(),
        cluster_ws_url: String::new(),
        payer_key_pair_bytes: Keypair::new().to_bytes(),
        account_key_pair_bytes: Keypair::new().to_bytes(),
    }
}

#[test]
fn main_test_initialize_post() {
    let mut ledger = Ledger::new();
    let c = configurations();
    let outcome = worker_task(&c, |_program, _catalog_key| ledger.send(initialize_call()));
    let reply = initialize(conclude(WorkerExit::Returned(outcome)));
    assert!(reply.status() >= 200 && reply.status() < 300);
}

#[test]
fn tests_test_initialize_post() {
    let mut ledger = Ledger::new();
    let reply = initialize(ledger.send(initialize_call()));
    assert_eq!(reply.status(), 200);
    match reply {
        Reply::Text(tx_id) => assert!(!tx_id.is_empty()),
        other => panic!("unexpected reply {:?}", other),
    }
}

#[test]
fn test_insert_goods_post() {
    let mut ledger = Ledger::new();
    assert_eq!(initialize(ledger.send(initialize_call())).status(), 200);
    let good = unga();
    let sent = ledger.send(insert_goods_call(&good));
    let reply = insert_goods(good.clone(), sent);
    assert_eq!(reply, Reply::Created("/goods/1".to_string(), good.clone()));
    assert_eq!(reply.status(), 201);
    let goods_vec = match get_all_goods(ledger.read()) {
        Reply::GoodsList(goods) => goods,
        other => panic!("unexpected reply {:?}", other),
    };
    assert_eq!(goods_vec, vec![good]);
}

#[test]
fn reading_the_catalog_twice_gives_the_same_reply() {
    let mut ledger = Ledger::new();
    ledger.send(initialize_call()).unwrap();
    ledger.send(insert_goods_call(&unga())).unwrap();
    let first = get_all_goods(ledger.read());
    let second = get_all_goods(ledger.read());
    assert_eq!(first, second);
    assert_eq!(first, Reply::GoodsList(vec![unga()]));
}

#[test]
fn a_good_that_is_not_there_is_answered_with_404() {
    let mut ledger = Ledger::new();
    ledger.send(initialize_call()).unwrap();
    ledger.send(insert_goods_call(&unga())).unwrap();
    let reply = get_specific_good(999, ledger.read());
    assert_eq!(reply.status(), 404);
    match reply {
        Reply::NotFound(body) => assert!(body.contains("999")),
        other => panic!("unexpected reply {:?}", other),
    }
}

#[test]
fn deleting_a_good_that_is_not_there_sends_nothing() {
    let mut ledger = Ledger::new();
    ledger.send(initialize_call()).unwrap();
    ledger.send(insert_goods_call(&unga())).unwrap();
    let before = ledger.sent;
    assert_eq!(delete_goods(999, DeleteStage::Start), Step::Call(LedgerCall::ReadCatalog));
    let step = delete_goods(999, DeleteStage::CatalogRead(ledger.read()));
    match step {
        Step::Respond(reply) => assert_eq!(reply.status(), 404),
        Step::Call(call) => panic!("unexpected call {:?}", call),
    }
    assert_eq!(ledger.sent, before);
}

#[test]
fn deleting_a_good_takes_it_out_of_the_catalog() {
    let mut ledger = Ledger::new();
    ledger.send(initialize_call()).unwrap();
    ledger.send(insert_goods_call(&unga())).unwrap();
    let call = match delete_goods(1, DeleteStage::CatalogRead(ledger.read())) {
        Step::Call(call) => call,
        Step::Respond(reply) => panic!("unexpected reply {:?}", reply),
    };
    assert_eq!(call, LedgerCall::DeleteGoods(1));
    let step = delete_goods(1, DeleteStage::DeletionSent(ledger.send(call)));
    assert_eq!(step, Step::Respond(Reply::NoContent));
    assert_eq!(get_all_goods(ledger.read()), Reply::GoodsList(vec![]));
}

#[test]
fn a_crashed_worker_is_answered_with_the_generic_message() {
    let crash = "thread panicked at src/rpc.rs:40: called `Option::unwrap()` on a `None` value";
    let result: Result<String, ShopCustomError> = conclude(WorkerExit::Crashed(crash.to_string()));
    let reply = initialize(result.clone());
    assert_eq!(reply.status(), 500);
    assert_eq!(reply, Reply::InternalError(GENERIC.to_string()));
    let result: Result<Vec<Good>, ShopCustomError> =
        conclude(WorkerExit::Crashed(crash.to_string()));
    for reply in [get_all_goods(result.clone()), get_specific_good(1, result.clone())] {
        assert_eq!(reply.status(), 500);
        match reply {
            Reply::InternalError(body) => {
                assert_eq!(body, GENERIC);
                assert!(!body.contains("panicked"));
            }
            other => panic!("unexpected reply {:?}", other),
        }
    }
    assert_eq!(
        delete_goods(1, DeleteStage::CatalogRead(result)),
        Step::Respond(Reply::InternalError(GENERIC.to_string()))
    );
}

#[test]
fn a_call_against_a_missing_account_is_answered_with_500() {
    let mut ledger = Ledger::new();
    let reply = insert_goods(unga(), ledger.send(insert_goods_call(&unga())));
    assert_eq!(reply, Reply::InternalError(GENERIC.to_string()));
    assert_eq!(get_all_goods(ledger.read()).status(), 500);
}
