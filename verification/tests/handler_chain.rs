use std::cell::Cell;
use std::sync::Arc;

use lampod::error::Error;
use lampod::events::{LampoEvent, Reaction, Request};
use lampod::handler::{ExternalHandler, LampoHandler};

/// Answers one method, counts its consultations.
struct Fixed {
    method: &'static str,
    response: &'static str,
    asked: Cell<usize>,
}

impl Fixed {
    fn new(method: &'static str, response: &'static str) -> Arc<Fixed> {
        Arc::new(Fixed { method, response, asked: Cell::new(0) })
    }
}

impl ExternalHandler for Fixed {
    fn handle(&self, request: &Request) -> Result<Option<String>, Error> {
        self.asked.set(self.asked.get() + 1);
        if request.method == self.method {
            Ok(Some(self.response.to_string()))
        } else {
            Ok(None)
        }
    }
}

/// Fails on every request.
struct Broken {
    asked: Cell<usize>,
}

impl ExternalHandler for Broken {
    fn handle(&self, _request: &Request) -> Result<Option<String>, Error> {
        self.asked.set(self.asked.get() + 1);
        Err(Error::Handler { reason: "plugin crashed".to_string() })
    }
}

fn request(method: &str) -> Request {
    Request { method: method.to_string(), params: "{}".to_string() }
}

type Chain = LampoHandler<Arc<dyn ExternalHandler>>;

#[test]
fn new_handler_has_an_empty_chain() {
    let handler = Chain::new();
    assert_eq!(handler.external_handlers_len(), 0);
}

#[test]
fn add_external_handler_appends() {
    let mut handler = Chain::new();
    assert_eq!(handler.add_external_handler(Fixed::new("a", "1")), Ok(()));
    assert_eq!(handler.add_external_handler(Fixed::new("b", "2")), Ok(()));
    assert_eq!(handler.external_handlers_len(), 2);
    assert_eq!(handler.dispatch(&request("b")), (Ok("2".to_string()), 2));
}

#[test]
fn first_matching_handler_answers_and_later_ones_are_not_consulted() {
    let a = Fixed::new("never", "from a");
    let b = Fixed::new("foo", "from b");
    let c = Fixed::new("foo", "from c");
    let mut handler = Chain::new();
    handler.add_external_handler(a.clone()).unwrap();
    handler.add_external_handler(b.clone()).unwrap();
    handler.add_external_handler(c.clone()).unwrap();

    let walk = handler.dispatch(&request("foo"));
    assert_eq!(walk, (Ok("from b".to_string()), 2));
    assert_eq!(a.asked.get(), 1);
    assert_eq!(b.asked.get(), 1);
    assert_eq!(c.asked.get(), 0);
}

#[test]
fn registration_order_breaks_ties() {
    let first = Fixed::new("foo", "first");
    let second = Fixed::new("foo", "second");
    let mut handler = Chain::new();
    handler.add_external_handler(first.clone()).unwrap();
    handler.add_external_handler(second.clone()).unwrap();
    assert_eq!(handler.dispatch(&request("foo")), (Ok("first".to_string()), 1));
    assert_eq!(second.asked.get(), 0);
}

#[test]
fn unregistered_method_is_not_found() {
    let a = Fixed::new("foo", "from a");
    let b = Fixed::new("bar", "from b");
    let mut handler = Chain::new();
    handler.add_external_handler(a.clone()).unwrap();
    handler.add_external_handler(b.clone()).unwrap();

    let walk = handler.dispatch(&request("baz"));
    assert_eq!(walk, (Err(Error::MethodNotFound { method: "baz".to_string() }), 2));
    assert_eq!(walk.0.unwrap_err().message(), "method `baz` not found");
    assert_eq!(a.asked.get(), 1);
    assert_eq!(b.asked.get(), 1);
}

#[test]
fn empty_chain_finds_no_method() {
    let handler = Chain::new();
    assert_eq!(
        handler.dispatch(&request("foo")),
        (Err(Error::MethodNotFound { method: "foo".to_string() }), 0)
    );
}

#[test]
fn failing_handler_aborts_the_walk() {
    let broken = Arc::new(Broken { asked: Cell::new(0) });
    let after = Fixed::new("foo", "never reached");
    let mut handler = Chain::new();
    handler.add_external_handler(Fixed::new("other", "x")).unwrap();
    handler.add_external_handler(broken.clone()).unwrap();
    handler.add_external_handler(after.clone()).unwrap();

    let walk = handler.dispatch(&request("foo"));
    assert_eq!(walk, (Err(Error::Handler { reason: "plugin crashed".to_string() }), 2));
    assert_eq!(broken.asked.get(), 1);
    assert_eq!(after.asked.get(), 0);
}

#[test]
fn react_forwards_peer_and_inventory_payloads() {
    let handler = Chain::new();
    let peer: LampoEvent<u8, u16, u32> = LampoEvent::PeerEvent(7);
    assert_eq!(handler.react(peer), Ok(Reaction::ToPeerManager(7)));
    let inventory: LampoEvent<u8, u16, u32> = LampoEvent::InventoryEvent(9);
    assert_eq!(handler.react(inventory), Ok(Reaction::ToInventoryManager(9)));
}

#[test]
fn react_replies_on_the_channel_of_the_request() {
    let mut handler = Chain::new();
    handler.add_external_handler(Fixed::new("getinfo", "{\"alias\":\"lampo\"}")).unwrap();
    let event: LampoEvent<u8, u16, u32> = LampoEvent::ExternalEvent(request("getinfo"), 55);
    assert_eq!(
        handler.react(event),
        Ok(Reaction::Reply { channel: 55, response: "{\"alias\":\"lampo\"}".to_string() })
    );
}

#[test]
fn react_fails_for_a_method_nobody_claims() {
    let mut handler = Chain::new();
    handler.add_external_handler(Fixed::new("getinfo", "{}")).unwrap();
    let event: LampoEvent<u8, u16, u32> = LampoEvent::ExternalEvent(request("pay"), 55);
    assert_eq!(handler.react(event), Err(Error::MethodNotFound { method: "pay".to_string() }));
}
