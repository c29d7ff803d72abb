use pos_commands::registry::Command;

const ALL: [Command; 5] = [
    Command::SellTicket,
    Command::ReturnTicket,
    Command::PrintTicket,
    Command::PrintReceipt,
    Command::OpenCustomerDisplay,
];

#[test]
fn commands_have_their_names() {
    assert_eq!(Command::SellTicket.name(), "sell_ticket");
    assert_eq!(Command::ReturnTicket.name(), "return_ticket");
    assert_eq!(Command::PrintTicket.name(), "print_ticket");
    assert_eq!(Command::PrintReceipt.name(), "print_receipt");
    assert_eq!(Command::OpenCustomerDisplay.name(), "open_customer_display");
}

#[test]
fn names_lead_back_to_their_commands() {
    for command in ALL {
        assert_eq!(Command::from_name(command.name()), Some(command));
    }
}

#[test]
fn names_are_pairwise_different() {
    for (i, a) in ALL.iter().enumerate() {
        for (j, b) in ALL.iter().enumerate() {
            assert_eq!(a.name() == b.name(), i == j);
        }
    }
}

#[test]
fn other_names_are_rejected() {
    for name in [
        "",
        "sell",
        "sell_ticket ",
        " sell_ticket",
        "Sell_Ticket",
        "sellTicket",
        "sell_tickets",
        "return_receipt",
        "print",
        "open_customer_displa",
        "open_customer_display\0",
        "close_customer_display",
    ] {
        assert_eq!(Command::from_name(name), None);
    }
}
