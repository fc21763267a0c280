use vstd::prelude::*;

verus! {

/// The host's standard errors, as far as the hub produces or passes them on.
#[derive(Debug, Clone, PartialEq, Eq)]
pub enum StdError {
    /// A storage item that the hub reads has never been written.
    NotFound { kind: String },
    /// A generic error carrying its message.
    GenericErr { msg: String },
    /// Bytes could not be parsed into the named type.
    ParseErr { target_type: String, msg: String },
    /// A value could not be serialised.
    SerializeErr { source_type: String, msg: String },
}

/// What a `StdError` means, with its texts as character sequences.
pub enum StdErrorView {
    NotFound { kind: Seq<char> },
    GenericErr { msg: Seq<char> },
    ParseErr { target_type: Seq<char>, msg: Seq<char> },
    SerializeErr { source_type: Seq<char>, msg: Seq<char> },
}

impl View for StdError {
    type V = StdErrorView;

    open spec fn view(&self) -> StdErrorView {
        match self {
            StdError::NotFound { kind } => StdErrorView::NotFound { kind: kind@ },
            StdError::GenericErr { msg } => StdErrorView::GenericErr { msg: msg@ },
            StdError::ParseErr { target_type, msg } => StdErrorView::ParseErr {
                target_type: target_type@,
                msg: msg@,
            },
            StdError::SerializeErr { source_type, msg } => StdErrorView::SerializeErr {
                source_type: source_type@,
                msg: msg@,
            },
        }
    }
}

/// The errors with which the hub refuses a message.
#[derive(Debug, Clone, PartialEq, Eq)]
pub enum ContractError {
    Std(StdError),
    GenericError {},
    InvalidPayment {},
    AlreadyUsed {},
}

pub enum ContractErrorView {
    Std(StdErrorView),
    GenericError,
    InvalidPayment,
    AlreadyUsed,
}

impl View for ContractError {
    type V = ContractErrorView;

    open spec fn view(&self) -> ContractErrorView {
        match self {
            ContractError::Std(e) => ContractErrorView::Std(e@),
            ContractError::GenericError {  } => ContractErrorView::GenericError,
            ContractError::InvalidPayment {  } => ContractErrorView::InvalidPayment,
            ContractError::AlreadyUsed {  } => ContractErrorView::AlreadyUsed,
        }
    }
}

/// The view of an address check: the validated address, or the error.
pub open spec fn check_view(c: Result<String, StdError>) -> Result<Seq<char>, StdErrorView> {
    match c {
        Ok(a) => Ok(a@),
        Err(e) => Err(e@),
    }
}

} // verus!
