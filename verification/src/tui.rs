//! What the operator is shown of a descriptor before signing, and what the
//! keys do. Drawing and reading the keyboard are the caller's.

use crate::commands::sign::Review;
use crate::types::{Address, CallArgs, CallArgsView, TransactionMode, TxParams, TxParamsView};
use crate::uint::{decimal_text, uint_div_rem, U256};
use vstd::prelude::*;
use vstd::string::StringExecFns;

verus! {

/// A key, as far as the review tells keys apart.
#[derive(Clone, Copy, Debug, PartialEq, Eq)]
pub enum Key {
    Char(char),
    Enter,
    Esc,
    Down,
    Up,
    PageDown,
    PageUp,
    Other,
}

/// What a key does to the review.
#[derive(Clone, Copy, Debug, PartialEq, Eq, Structural)]
pub enum KeyOutcome {
    /// The operator has decided.
    Decided(Review),
    /// The review goes on with the details scrolled to this line.
    Scrolled(u16),
}

/// The review's answer to a key: `y`, `Y` and Enter approve; `n`, `N`, `q`
/// and Esc reject; the arrows and `j`, `k` scroll by one line, the page keys
/// by ten, never past either end of what a `u16` counts; any other key leaves
/// the review as it is.
pub open spec fn key_outcome(scroll: u16, key: Key) -> KeyOutcome {
    match key {
        Key::Char(c) => if c == 'y' || c == 'Y' {
            KeyOutcome::Decided(Review::Approved)
        } else if c == 'n' || c == 'N' || c == 'q' {
            KeyOutcome::Decided(Review::Rejected)
        } else if c == 'j' {
            KeyOutcome::Scrolled(scroll.saturating_add(1))
        } else if c == 'k' {
            KeyOutcome::Scrolled(scroll.saturating_sub(1))
        } else {
            KeyOutcome::Scrolled(scroll)
        },
        Key::Enter => KeyOutcome::Decided(Review::Approved),
        Key::Esc => KeyOutcome::Decided(Review::Rejected),
        Key::Down => KeyOutcome::Scrolled(scroll.saturating_add(1)),
        Key::Up => KeyOutcome::Scrolled(scroll.saturating_sub(1)),
        Key::PageDown => KeyOutcome::Scrolled(scroll.saturating_add(10)),
        Key::PageUp => KeyOutcome::Scrolled(scroll.saturating_sub(10)),
        Key::Other => KeyOutcome::Scrolled(scroll),
    }
}

/// Takes one key of the review.
pub fn handle_key(scroll: u16, key: Key) -> (r: KeyOutcome)
    ensures
        r == key_outcome(scroll, key),
{
    match key {
        Key::Char(c) => {
            if c == 'y' || c == 'Y' {
                KeyOutcome::Decided(Review::Approved)
            } else if c == 'n' || c == 'N' || c == 'q' {
                KeyOutcome::Decided(Review::Rejected)
            } else if c == 'j' {
                KeyOutcome::Scrolled(scroll.saturating_add(1))
            } else if c == 'k' {
                KeyOutcome::Scrolled(scroll.saturating_sub(1))
            } else {
                KeyOutcome::Scrolled(scroll)
            }
        },
        Key::Enter => KeyOutcome::Decided(Review::Approved),
        Key::Esc => KeyOutcome::Decided(Review::Rejected),
        Key::Down => KeyOutcome::Scrolled(scroll.saturating_add(1)),
        Key::Up => KeyOutcome::Scrolled(scroll.saturating_sub(1)),
        Key::PageDown => KeyOutcome::Scrolled(scroll.saturating_add(10)),
        Key::PageUp => KeyOutcome::Scrolled(scroll.saturating_sub(10)),
        Key::Other => KeyOutcome::Scrolled(scroll),
    }
}

/// How a line of the details is set off.
#[derive(Clone, Copy, Debug, PartialEq, Eq, Structural)]
pub enum Tone {
    Plain,
    /// The network: green.
    Network,
    /// Mode and value: yellow.
    Marked,
    /// The function's name: cyan.
    Name,
    /// A contract creation: magenta.
    Creation,
    /// The cost: red and bold.
    Cost,
    /// A heading: bold.
    Heading,
}

/// One line of the details: a label in bold, and a value.
#[derive(Clone, Debug, PartialEq, Eq)]
pub struct DetailLine {
    pub label: String,
    pub value: String,
    pub tone: Tone,
}

/// [`DetailLine`] as a mathematical value.
pub struct DetailLineView {
    pub label: Seq<char>,
    pub value: Seq<char>,
    pub tone: Tone,
}

impl View for DetailLine {
    type V = DetailLineView;

    open spec fn view(&self) -> DetailLineView {
        DetailLineView { label: self.label@, value: self.value@, tone: self.tone }
    }
}

/// Lines as mathematical values.
pub open spec fn lines_view(lines: Seq<DetailLine>) -> Seq<DetailLineView> {
    Seq::new(lines.len(), |i: int| lines[i]@)
}

/// A line.
pub open spec fn line(label: Seq<char>, value: Seq<char>, tone: Tone) -> DetailLineView {
    DetailLineView { label, value, tone }
}

/// An empty line.
pub open spec fn blank() -> DetailLineView {
    line(Seq::empty(), Seq::empty(), Tone::Plain)
}

/// An address as text, with its checksum in the case of the letters.
pub uninterp spec fn checksum_text(address: Seq<u8>) -> Seq<char>;

/// The `Display` of alloy's `Address`: `0x` and 40 hex digits, the case of
/// the letters being the address's checksum.
#[verifier::external_body]
pub(crate) fn address_text(a: &Address) -> (r: String)
    ensures
        r@ == checksum_text(a@),
{
    alloy::primitives::Address::from(a.bytes).to_string()
}

/// The name of a mode.
pub open spec fn mode_text(mode: TransactionMode) -> Seq<char> {
    match mode {
        TransactionMode::Deploy => "Deploy"@,
        TransactionMode::Call => "Call"@,
    }
}

/// A price per unit of gas in whole gwei.
pub open spec fn gwei_text(wei: nat) -> Seq<char> {
    decimal_text(wei / 1_000_000_000) + " gwei"@
}

/// The lines up to the mode: network, mode, function.
pub open spec fn heading_lines(d: TxParamsView) -> Seq<DetailLineView> {
    seq![
        line(
            "Network: "@,
            d.metadata.network.name + " (Chain ID: "@ + decimal_text(d.metadata.network.chain_id as nat)
                + ")"@,
            Tone::Network,
        ),
        blank(),
        line("Mode: "@, mode_text(d.mode), Tone::Marked),
    ] + match d.function_name {
        Some(name) => seq![line("Function: "@, name, Tone::Name)],
        None => Seq::empty(),
    }
}

/// The lines of sender and receiver.
pub open spec fn party_lines(d: TxParamsView) -> Seq<DetailLineView> {
    seq![
        blank(),
        line("From: "@, checksum_text(d.transaction.from), Tone::Plain),
        match d.transaction.to {
            Some(to) => line("To: "@, checksum_text(to), Tone::Plain),
            None => line("To: "@, "Contract Creation"@, Tone::Creation),
        },
        blank(),
    ]
}

/// The lines of value, nonce, gas limit and prices. A value of zero is not
/// shown; of the prices, those that the body names.
pub open spec fn gas_lines(d: TxParamsView) -> Seq<DetailLineView> {
    let body = d.transaction;
    (match body.value {
        Some(v) => if v > 0 {
            seq![line("Value: "@, decimal_text(v) + " wei"@, Tone::Marked)]
        } else {
            Seq::empty()
        },
        None => Seq::empty(),
    }) + seq![
        line("Nonce: "@, decimal_text(body.nonce as nat), Tone::Plain),
        line("Gas Limit: "@, decimal_text(body.gas_limit), Tone::Plain),
    ] + (match body.max_fee_per_gas {
        Some(v) => seq![line("Max Fee Per Gas: "@, gwei_text(v), Tone::Plain)],
        None => Seq::empty(),
    }) + (match body.max_priority_fee_per_gas {
        Some(v) => seq![line("Priority Fee: "@, gwei_text(v), Tone::Plain)],
        None => Seq::empty(),
    }) + (match body.gas_price {
        Some(v) => seq![line("Gas Price: "@, gwei_text(v), Tone::Plain)],
        None => Seq::empty(),
    })
}

/// The lines of the cost.
pub open spec fn cost_lines(d: TxParamsView) -> Seq<DetailLineView> {
    seq![
        blank(),
        line("Estimated Cost: "@, d.metadata.estimated_cost + " ETH"@, Tone::Cost),
        blank(),
    ]
}

/// The lines of the call's arguments, under their heading.
pub open spec fn params_lines(d: TxParamsView) -> Seq<DetailLineView> {
    match d.params {
        None => Seq::empty(),
        Some(args) => seq![line("Parameters:"@, Seq::empty(), Tone::Heading)] + match args {
            CallArgsView::Deposit { beneficiary, amount, deadline, token } => seq![
                line("  beneficiary: "@, checksum_text(beneficiary), Tone::Plain),
                line("  amount: "@, amount, Tone::Plain),
                line("  deadline: "@, decimal_text(deadline as nat), Tone::Plain),
                match token {
                    Some(t) => line("  token: "@, checksum_text(t), Tone::Plain),
                    None => line("  token: "@, "native currency"@, Tone::Plain),
                },
            ],
            CallArgsView::Claim { id } => seq![line("  id: "@, decimal_text(id), Tone::Plain)],
            CallArgsView::Reclaim { id } => seq![line("  id: "@, decimal_text(id), Tone::Plain)],
            CallArgsView::ExtendDeadline { id, new_deadline } => seq![
                line("  id: "@, decimal_text(id), Tone::Plain),
                line("  new deadline: "@, decimal_text(new_deadline as nat), Tone::Plain),
            ],
            CallArgsView::TransferFeeCollector { new_collector } => seq![
                line("  new collector: "@, checksum_text(new_collector), Tone::Plain),
            ],
        },
    }
}

/// Everything the operator is shown of a descriptor, line by line.
pub open spec fn details_of(d: TxParamsView) -> Seq<DetailLineView> {
    heading_lines(d) + party_lines(d) + gas_lines(d) + cost_lines(d) + params_lines(d)
}

/// Appends a line.
fn push_line(lines: &mut Vec<DetailLine>, label: &str, value: String, tone: Tone)
    ensures
        lines_view(final(lines)@) == lines_view(old(lines)@).push(line(label@, value@, tone)),
{
    lines.push(DetailLine { label: String::from_str(label), value, tone });
    assert(lines_view(lines@) =~= lines_view(old(lines)@).push(line(label@, value@, tone)));
}

/// Appends an empty line.
fn push_blank(lines: &mut Vec<DetailLine>)
    ensures
        lines_view(final(lines)@) == lines_view(old(lines)@).push(blank()),
{
    lines.push(DetailLine { label: String::new(), value: String::new(), tone: Tone::Plain });
    assert(lines_view(lines@) =~= lines_view(old(lines)@).push(blank()));
}

/// A number of at most 64 bits in decimal digits.
fn number_text(n: u64) -> (r: String)
    ensures
        r@ == decimal_text(n as nat),
{
    U256::from_u64(n).to_decimal_string()
}

/// A price in whole gwei.
fn gwei(wei: &U256) -> (r: String)
    ensures
        r@ == gwei_text(wei@),
{
    let (q, _) = uint_div_rem(*wei, U256::from_u64(1_000_000_000));
    q.to_decimal_string().concat(" gwei")
}

/// The first lines: network, mode, function.
fn heading(tx_params: &TxParams) -> (r: Vec<DetailLine>)
    ensures
        lines_view(r@) == heading_lines(tx_params@),
{
    let mut lines: Vec<DetailLine> = Vec::new();
    assert(lines_view(lines@) =~= Seq::empty());
    let network = tx_params.metadata.network.name.clone().concat(" (Chain ID: ").concat(
        number_text(tx_params.metadata.network.chain_id).as_str(),
    ).concat(")");
    push_line(&mut lines, "Network: ", network, Tone::Network);
    push_blank(&mut lines);
    let mode = match tx_params.mode {
        TransactionMode::Deploy => String::from_str("Deploy"),
        TransactionMode::Call => String::from_str("Call"),
    };
    push_line(&mut lines, "Mode: ", mode, Tone::Marked);
    if let Some(name) = &tx_params.function_name {
        push_line(&mut lines, "Function: ", name.clone(), Tone::Name);
    }
    assert(lines_view(lines@) =~= heading_lines(tx_params@));
    lines
}

/// Appends the lines of sender and receiver.
fn push_parties(lines: &mut Vec<DetailLine>, tx_params: &TxParams)
    ensures
        lines_view(final(lines)@) == lines_view(old(lines)@) + party_lines(tx_params@),
{
    push_blank(lines);
    push_line(lines, "From: ", address_text(&tx_params.transaction.from), Tone::Plain);
    match &tx_params.transaction.to {
        Some(to) => push_line(lines, "To: ", address_text(to), Tone::Plain),
        None => push_line(lines, "To: ", String::from_str("Contract Creation"), Tone::Creation),
    }
    push_blank(lines);
    assert(lines_view(lines@) =~= lines_view(old(lines)@) + party_lines(tx_params@));
}

/// Appends the lines of value, nonce, gas limit and prices.
fn push_gas(lines: &mut Vec<DetailLine>, tx_params: &TxParams)
    ensures
        lines_view(final(lines)@) == lines_view(old(lines)@) + gas_lines(tx_params@),
{
    let body = &tx_params.transaction;
    let ghost start = lines_view(lines@);
    let ghost d = tx_params@;
    if let Some(v) = &body.value {
        if !v.is_zero() {
            push_line(lines, "Value: ", v.to_decimal_string().concat(" wei"), Tone::Marked);
        }
    }
    let ghost value_part = match d.transaction.value {
        Some(v) => if v > 0 {
            seq![line("Value: "@, decimal_text(v) + " wei"@, Tone::Marked)]
        } else {
            Seq::empty()
        },
        None => Seq::empty(),
    };
    assert(lines_view(lines@) =~= start + value_part);
    push_line(lines, "Nonce: ", number_text(body.nonce), Tone::Plain);
    push_line(lines, "Gas Limit: ", body.gas_limit.to_decimal_string(), Tone::Plain);
    let ghost fixed = seq![
        line("Nonce: "@, decimal_text(d.transaction.nonce as nat), Tone::Plain),
        line("Gas Limit: "@, decimal_text(d.transaction.gas_limit), Tone::Plain),
    ];
    assert(lines_view(lines@) =~= start + (value_part + fixed));
    if let Some(v) = &body.max_fee_per_gas {
        push_line(lines, "Max Fee Per Gas: ", gwei(v), Tone::Plain);
    }
    let ghost cap_part = match d.transaction.max_fee_per_gas {
        Some(v) => seq![line("Max Fee Per Gas: "@, gwei_text(v), Tone::Plain)],
        None => Seq::empty(),
    };
    assert(lines_view(lines@) =~= start + (value_part + fixed + cap_part));
    if let Some(v) = &body.max_priority_fee_per_gas {
        push_line(lines, "Priority Fee: ", gwei(v), Tone::Plain);
    }
    let ghost tip_part = match d.transaction.max_priority_fee_per_gas {
        Some(v) => seq![line("Priority Fee: "@, gwei_text(v), Tone::Plain)],
        None => Seq::empty(),
    };
    assert(lines_view(lines@) =~= start + (value_part + fixed + cap_part + tip_part));
    if let Some(v) = &body.gas_price {
        push_line(lines, "Gas Price: ", gwei(v), Tone::Plain);
    }
    assert(lines_view(lines@) =~= start + gas_lines(d));
}

/// Appends the lines of the cost.
fn push_cost(lines: &mut Vec<DetailLine>, tx_params: &TxParams)
    ensures
        lines_view(final(lines)@) == lines_view(old(lines)@) + cost_lines(tx_params@),
{
    push_blank(lines);
    push_line(
        lines,
        "Estimated Cost: ",
        tx_params.metadata.estimated_cost.clone().concat(" ETH"),
        Tone::Cost,
    );
    push_blank(lines);
    assert(lines_view(lines@) =~= lines_view(old(lines)@) + cost_lines(tx_params@));
}

/// Appends the lines of the call's arguments.
fn push_params(lines: &mut Vec<DetailLine>, tx_params: &TxParams)
    ensures
        lines_view(final(lines)@) == lines_view(old(lines)@) + params_lines(tx_params@),
{
    match &tx_params.params {
        None => {},
        Some(args) => {
            push_line(lines, "Parameters:", String::new(), Tone::Heading);
            match args {
                CallArgs::Deposit { beneficiary, amount, deadline, token } => {
                    push_line(lines, "  beneficiary: ", address_text(beneficiary), Tone::Plain);
                    push_line(lines, "  amount: ", amount.clone(), Tone::Plain);
                    push_line(lines, "  deadline: ", number_text(*deadline), Tone::Plain);
                    match token {
                        Some(t) => push_line(lines, "  token: ", address_text(t), Tone::Plain),
                        None => push_line(
                            lines,
                            "  token: ",
                            String::from_str("native currency"),
                            Tone::Plain,
                        ),
                    }
                },
                CallArgs::Claim { id } => {
                    push_line(lines, "  id: ", id.to_decimal_string(), Tone::Plain);
                },
                CallArgs::Reclaim { id } => {
                    push_line(lines, "  id: ", id.to_decimal_string(), Tone::Plain);
                },
                CallArgs::ExtendDeadline { id, new_deadline } => {
                    push_line(lines, "  id: ", id.to_decimal_string(), Tone::Plain);
                    push_line(lines, "  new deadline: ", number_text(*new_deadline), Tone::Plain);
                },
                CallArgs::TransferFeeCollector { new_collector } => {
                    push_line(lines, "  new collector: ", address_text(new_collector), Tone::Plain);
                },
            }
        },
    }
    assert(lines_view(lines@) =~= lines_view(old(lines)@) + params_lines(tx_params@));
}

/// The details of a descriptor as the operator is to see them: what is
/// signed, for which network, from whom to whom, at what cost.
pub fn create_transaction_details(tx_params: &TxParams) -> (r: Vec<DetailLine>)
    ensures
        lines_view(r@) == details_of(tx_params@),
{
    let mut lines = heading(tx_params);
    push_parties(&mut lines, tx_params);
    push_gas(&mut lines, tx_params);
    push_cost(&mut lines, tx_params);
    push_params(&mut lines, tx_params);
    lines
}

/// Texts as mathematical values.
pub open spec fn texts_view(lines: Seq<String>) -> Seq<Seq<char>> {
    Seq::new(lines.len(), |i: int| lines[i]@)
}

/// The summary of a descriptor in plain lines: network, mode, function,
/// sender, receiver, nonce, gas limit, cost.
pub open spec fn summary_of(d: TxParamsView) -> Seq<Seq<char>> {
    seq![
        "Transaction Review"@,
        "Network: "@ + d.metadata.network.name + " (chain ID: "@ + decimal_text(
            d.metadata.network.chain_id as nat,
        ) + ")"@,
        "Mode: "@ + mode_text(d.mode),
    ] + (match d.function_name {
        Some(name) => seq!["Function: "@ + name],
        None => Seq::empty(),
    }) + seq!["From: "@ + checksum_text(d.transaction.from)] + (match d.transaction.to {
        Some(to) => seq!["To: "@ + checksum_text(to)],
        None => Seq::empty(),
    }) + seq![
        "Nonce: "@ + decimal_text(d.transaction.nonce as nat),
        "Gas Limit: "@ + decimal_text(d.transaction.gas_limit),
        "Estimated Cost: "@ + d.metadata.estimated_cost + " ETH"@,
    ]
}

/// Appends a text.
fn push_text(lines: &mut Vec<String>, text: String)
    ensures
        texts_view(final(lines)@) == texts_view(old(lines)@).push(text@),
{
    lines.push(text);
    assert(texts_view(lines@) =~= texts_view(old(lines)@).push(text@));
}

/// The summary that is shown where the review is skipped.
pub fn display_transaction_summary(tx_params: &TxParams) -> (r: Vec<String>)
    ensures
        texts_view(r@) == summary_of(tx_params@),
{
    let ghost d = tx_params@;
    let mut lines: Vec<String> = Vec::new();
    assert(texts_view(lines@) =~= Seq::empty());
    push_text(&mut lines, String::from_str("Transaction Review"));
    push_text(
        &mut lines,
        String::from_str("Network: ").concat(tx_params.metadata.network.name.as_str()).concat(
            " (chain ID: ",
        ).concat(number_text(tx_params.metadata.network.chain_id).as_str()).concat(")"),
    );
    let mode = match tx_params.mode {
        TransactionMode::Deploy => "Deploy",
        TransactionMode::Call => "Call",
    };
    push_text(&mut lines, String::from_str("Mode: ").concat(mode));
    if let Some(name) = &tx_params.function_name {
        push_text(&mut lines, String::from_str("Function: ").concat(name.as_str()));
    }
    push_text(
        &mut lines,
        String::from_str("From: ").concat(address_text(&tx_params.transaction.from).as_str()),
    );
    let ghost head = seq![
        "Transaction Review"@,
        "Network: "@ + d.metadata.network.name + " (chain ID: "@ + decimal_text(
            d.metadata.network.chain_id as nat,
        ) + ")"@,
        "Mode: "@ + mode_text(d.mode),
    ] + (match d.function_name {
        Some(name) => seq!["Function: "@ + name],
        None => Seq::empty(),
    }) + seq!["From: "@ + checksum_text(d.transaction.from)];
    assert(texts_view(lines@) =~= head);
    if let Some(to) = &tx_params.transaction.to {
        push_text(&mut lines, String::from_str("To: ").concat(address_text(to).as_str()));
    }
    push_text(
        &mut lines,
        String::from_str("Nonce: ").concat(number_text(tx_params.transaction.nonce).as_str()),
    );
    push_text(
        &mut lines,
        String::from_str("Gas Limit: ").concat(
            tx_params.transaction.gas_limit.to_decimal_string().as_str(),
        ),
    );
    push_text(
        &mut lines,
        String::from_str("Estimated Cost: ").concat(tx_params.metadata.estimated_cost.as_str()).concat(
            " ETH",
        ),
    );
    assert(texts_view(lines@) =~= summary_of(d));
    lines
}

} // verus!
