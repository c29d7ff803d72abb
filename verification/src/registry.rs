//! The commands that the user interface can invoke, by name.
//!
//! The registry is a fixed table. It holds no session, no queue and no limit:
//! every invocation stands for itself.

use vstd::prelude::*;
use crate::text::same_text;

verus! {

/// One of the five commands.
#[derive(Debug, Clone, Copy, PartialEq, Eq, Structural)]
pub enum Command {
    SellTicket,
    ReturnTicket,
    PrintTicket,
    PrintReceipt,
    OpenCustomerDisplay,
}

impl Command {
    /// The name under which the user interface invokes the command.
    pub open spec fn name_text(self) -> Seq<char> {
        match self {
            Command::SellTicket => "sell_ticket"@,
            Command::ReturnTicket => "return_ticket"@,
            Command::PrintTicket => "print_ticket"@,
            Command::PrintReceipt => "print_receipt"@,
            Command::OpenCustomerDisplay => "open_customer_display"@,
        }
    }

    /// The command that `name` invokes, if it invokes one.
    pub open spec fn lookup(name: Seq<char>) -> Option<Command> {
        if name == Command::SellTicket.name_text() {
            Some(Command::SellTicket)
        } else if name == Command::ReturnTicket.name_text() {
            Some(Command::ReturnTicket)
        } else if name == Command::PrintTicket.name_text() {
            Some(Command::PrintTicket)
        } else if name == Command::PrintReceipt.name_text() {
            Some(Command::PrintReceipt)
        } else if name == Command::OpenCustomerDisplay.name_text() {
            Some(Command::OpenCustomerDisplay)
        } else {
            None
        }
    }

    /// The name under which the user interface invokes the command.
    pub fn name(self) -> (name: &'static str)
        ensures
            name@ == self.name_text(),
    {
        match self {
            Command::SellTicket => "sell_ticket",
            Command::ReturnTicket => "return_ticket",
            Command::PrintTicket => "print_ticket",
            Command::PrintReceipt => "print_receipt",
            Command::OpenCustomerDisplay => "open_customer_display",
        }
    }

    /// Finds the command that `name` invokes. Any other name is rejected with
    /// `None`.
    pub fn from_name(name: &str) -> (command: Option<Command>)
        ensures
            command == Command::lookup(name@),
    {
        if same_text(name, "sell_ticket") {
            Some(Command::SellTicket)
        } else if same_text(name, "return_ticket") {
            Some(Command::ReturnTicket)
        } else if same_text(name, "print_ticket") {
            Some(Command::PrintTicket)
        } else if same_text(name, "print_receipt") {
            Some(Command::PrintReceipt)
        } else if same_text(name, "open_customer_display") {
            Some(Command::OpenCustomerDisplay)
        } else {
            None
        }
    }
}

/// No two commands share a name.
pub proof fn names_are_distinct(a: Command, b: Command)
    ensures
        a.name_text() == b.name_text() <==> a == b,
{
    reveal_strlit("sell_ticket");
    reveal_strlit("return_ticket");
    reveal_strlit("print_ticket");
    reveal_strlit("print_receipt");
    reveal_strlit("open_customer_display");
    assert(Command::SellTicket.name_text().len() == 11);
    assert(Command::ReturnTicket.name_text().len() == 13);
    assert(Command::PrintTicket.name_text().len() == 12);
    assert(Command::PrintReceipt.name_text().len() == 13);
    assert(Command::OpenCustomerDisplay.name_text().len() == 21);
    assert(Command::ReturnTicket.name_text()[0] == 'r');
    assert(Command::PrintReceipt.name_text()[0] == 'p');
}

/// Every command is found under its own name.
pub proof fn lookup_finds_each_command(command: Command)
    ensures
        Command::lookup(command.name_text()) == Some(command),
{
    names_are_distinct(command, Command::SellTicket);
    names_are_distinct(command, Command::ReturnTicket);
    names_are_distinct(command, Command::PrintTicket);
    names_are_distinct(command, Command::PrintReceipt);
    names_are_distinct(command, Command::OpenCustomerDisplay);
}

/// A name invokes a command only if it is that command's name: the registry
/// answers to the five names and to nothing else.
pub proof fn lookup_accepts_only_names(name: Seq<char>)
    ensures
        match Command::lookup(name) {
            Some(command) => name == command.name_text(),
            None => forall|command: Command| name != #[trigger] command.name_text(),
        },
{
}

} // verus!
