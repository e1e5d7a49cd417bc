//! The form in which the facade's own calls reach the node.
//!
//! The node's client has calls of its own for some requests. The others are
//! sent as a command with positional parameters, and this module says which
//! command and which parameters.

use crate::backend::{Request, RequestView};
use crate::ident::display_hex;
use vstd::prelude::*;

verus! {

/// One positional parameter of a command.
#[derive(Clone, Debug, PartialEq, Eq)]
pub enum Param {
    Text(String),
    Flag(bool),
    Number(u64),
}

/// A [`Param`] as a mathematical value.
pub enum ParamView {
    Text(Seq<char>),
    Flag(bool),
    Number(u64),
}

impl View for Param {
    type V = ParamView;

    open spec fn view(&self) -> ParamView {
        match *self {
            Param::Text(text) => ParamView::Text(text@),
            Param::Flag(flag) => ParamView::Flag(flag),
            Param::Number(number) => ParamView::Number(number),
        }
    }
}

/// A command for the node with its parameters in order.
#[derive(Clone, Debug, PartialEq, Eq)]
pub struct Command {
    pub method: &'static str,
    pub params: Vec<Param>,
}

/// A [`Command`] as a mathematical value.
pub struct CommandView {
    pub method: Seq<char>,
    pub params: Seq<ParamView>,
}

impl View for Command {
    type V = CommandView;

    open spec fn view(&self) -> CommandView {
        CommandView {
            method: self.method@,
            params: Seq::new(self.params@.len(), |i: int| self.params@[i]@),
        }
    }
}

/// The command that carries a request, for the requests that the facade
/// sends as commands: headers and transactions are named by the hexadecimal
/// text of their identity and followed by the choice of form, a fee estimate
/// takes the confirmation target, the mempool content takes the choice of
/// form, and the mempool state takes nothing.
pub open spec fn command_of(request: RequestView) -> Option<CommandView> {
    match request {
        RequestView::BlockHeader { block, verbose } => Some(
            CommandView {
                method: "getblockheader"@,
                params: seq![ParamView::Text(display_hex(block.bytes@)), ParamView::Flag(verbose)],
            },
        ),
        RequestView::RawTransaction { txid, verbose } => Some(
            CommandView {
                method: "getrawtransaction"@,
                params: seq![ParamView::Text(display_hex(txid.bytes@)), ParamView::Flag(verbose)],
            },
        ),
        RequestView::SmartFee { target } => Some(
            CommandView {
                method: "estimatesmartfee"@,
                params: seq![ParamView::Number(target as u64)],
            },
        ),
        RequestView::MempoolInfo => Some(
            CommandView { method: "getmempoolinfo"@, params: Seq::empty() },
        ),
        RequestView::RawMempool { verbose } => Some(
            CommandView { method: "getrawmempool"@, params: seq![ParamView::Flag(verbose)] },
        ),
        _ => None,
    }
}

/// A command or none, as a mathematical value.
pub open spec fn command_view(command: Option<Command>) -> Option<CommandView> {
    match command {
        Some(command) => Some(command@),
        None => None,
    }
}

impl Request {
    /// The command that carries the request to the node, or `None` for a
    /// request that is not sent as a command.
    pub fn command(&self) -> (command: Option<Command>)
        ensures
            command_view(command) == command_of(self@),
    {
        match self {
            Request::BlockHeader { block, verbose } => {
                let mut params: Vec<Param> = Vec::new();
                params.push(Param::Text(block.to_hex()));
                params.push(Param::Flag(*verbose));
                let command = Command { method: "getblockheader", params };
                assert(command@.params =~= command_of(self@).unwrap().params);
                Some(command)
            },
            Request::RawTransaction { txid, verbose } => {
                let mut params: Vec<Param> = Vec::new();
                params.push(Param::Text(txid.to_hex()));
                params.push(Param::Flag(*verbose));
                let command = Command { method: "getrawtransaction", params };
                assert(command@.params =~= command_of(self@).unwrap().params);
                Some(command)
            },
            Request::SmartFee { target } => {
                let mut params: Vec<Param> = Vec::new();
                params.push(Param::Number(*target as u64));
                let command = Command { method: "estimatesmartfee", params };
                assert(command@.params =~= command_of(self@).unwrap().params);
                Some(command)
            },
            Request::MempoolInfo => {
                let params: Vec<Param> = Vec::new();
                let command = Command { method: "getmempoolinfo", params };
                assert(command@.params =~= command_of(self@).unwrap().params);
                Some(command)
            },
            Request::RawMempool { verbose } => {
                let mut params: Vec<Param> = Vec::new();
                params.push(Param::Flag(*verbose));
                let command = Command { method: "getrawmempool", params };
                assert(command@.params =~= command_of(self@).unwrap().params);
                Some(command)
            },
            _ => None,
        }
    }
}

} // verus!
