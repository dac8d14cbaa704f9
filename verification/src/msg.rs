//! The messages that come in and the message that goes out.

use crate::uint256::Uint256;
use vstd::prelude::*;

verus! {

/// Initial configuration of the relay.
#[derive(Clone, Debug, PartialEq, Eq)]
pub struct InstantiateMsg {
    /// Least number of seconds between two accepted swaps for one key.
    pub retry_delay: u64,
    /// The remote job that every outbound message targets.
    pub job_id: String,
    pub creator: String,
    pub signers: Vec<String>,
}

/// What an [`InstantiateMsg`] denotes.
pub struct InstantiateMsgView {
    pub retry_delay: u64,
    pub job_id: Seq<char>,
    pub creator: Seq<char>,
    pub signers: Seq<Seq<char>>,
}

impl View for InstantiateMsg {
    type V = InstantiateMsgView;

    open spec fn view(&self) -> InstantiateMsgView {
        InstantiateMsgView {
            retry_delay: self.retry_delay,
            job_id: self.job_id@,
            creator: self.creator@,
            signers: texts(self.signers@),
        }
    }
}

/// The view of each string of a sequence.
pub open spec fn texts(strings: Seq<String>) -> Seq<Seq<char>> {
    strings.map_values(|s: String| s@)
}

/// The arguments of a swap.
#[derive(Clone, Debug, PartialEq, Eq)]
pub struct Deposit {
    /// Address text of the receiver, in hexadecimal.
    pub receiver: String,
    pub amount: Uint256,
    pub expected: Uint256,
    pub deposit_id: Uint256,
    pub number_trades: Uint256,
}

/// What a [`Deposit`] denotes.
pub struct DepositView {
    pub receiver: Seq<char>,
    pub amount: Uint256,
    pub expected: Uint256,
    pub deposit_id: Uint256,
    pub number_trades: Uint256,
}

impl View for Deposit {
    type V = DepositView;

    open spec fn view(&self) -> DepositView {
        DepositView {
            receiver: self.receiver@,
            amount: self.amount,
            expected: self.expected,
            deposit_id: self.deposit_id,
            number_trades: self.number_trades,
        }
    }
}

/// The commands that the owner may issue.
#[derive(Clone, Debug, PartialEq, Eq)]
pub enum ExecuteMsg {
    PutSwap { deposit: Deposit },
    SetPaloma {  },
    UpdateCompass { new_compass: String },
    UpdateRefundWallet { new_refund_wallet: String },
    UpdateFee { fee: Uint256 },
    UpdateServiceFeeCollector { new_service_fee_collector: String },
    UpdateServiceFee { new_service_fee: Uint256 },
}

/// What an [`ExecuteMsg`] denotes.
pub enum ExecuteMsgView {
    PutSwap { deposit: DepositView },
    SetPaloma {  },
    UpdateCompass { new_compass: Seq<char> },
    UpdateRefundWallet { new_refund_wallet: Seq<char> },
    UpdateFee { fee: Uint256 },
    UpdateServiceFeeCollector { new_service_fee_collector: Seq<char> },
    UpdateServiceFee { new_service_fee: Uint256 },
}

impl View for ExecuteMsg {
    type V = ExecuteMsgView;

    open spec fn view(&self) -> ExecuteMsgView {
        match self {
            ExecuteMsg::PutSwap { deposit } => ExecuteMsgView::PutSwap { deposit: deposit@ },
            ExecuteMsg::SetPaloma {  } => ExecuteMsgView::SetPaloma {  },
            ExecuteMsg::UpdateCompass { new_compass } => ExecuteMsgView::UpdateCompass {
                new_compass: new_compass@,
            },
            ExecuteMsg::UpdateRefundWallet {
                new_refund_wallet,
            } => ExecuteMsgView::UpdateRefundWallet { new_refund_wallet: new_refund_wallet@ },
            ExecuteMsg::UpdateFee { fee } => ExecuteMsgView::UpdateFee { fee: *fee },
            ExecuteMsg::UpdateServiceFeeCollector {
                new_service_fee_collector,
            } => ExecuteMsgView::UpdateServiceFeeCollector {
                new_service_fee_collector: new_service_fee_collector@,
            },
            ExecuteMsg::UpdateServiceFee {
                new_service_fee,
            } => ExecuteMsgView::UpdateServiceFee { new_service_fee: *new_service_fee },
        }
    }
}

/// Routing context that every outbound message carries unchanged.
#[derive(Debug, PartialEq, Eq)]
pub struct Metadata {
    pub creator: String,
    pub signers: Vec<String>,
}

/// What a [`Metadata`] denotes.
pub struct MetadataView {
    pub creator: Seq<char>,
    pub signers: Seq<Seq<char>>,
}

impl View for Metadata {
    type V = MetadataView;

    open spec fn view(&self) -> MetadataView {
        MetadataView { creator: self.creator@, signers: texts(self.signers@) }
    }
}

impl Clone for Metadata {
    fn clone(&self) -> (copy: Metadata)
        ensures
            copy@ == self@,
    {
        let signers = self.signers.clone();
        assert(texts(signers@) =~= texts(self.signers@));
        Metadata { creator: self.creator.clone(), signers }
    }
}

/// The outbound message: a call for a remote job.
#[derive(Clone, Debug, PartialEq, Eq)]
pub struct PalomaMsg {
    /// The remote job to run.
    pub job_id: String,
    /// The call, ABI-encoded for the target chain.
    pub payload: Vec<u8>,
    pub metadata: Metadata,
}

/// What a [`PalomaMsg`] denotes.
pub struct PalomaMsgView {
    pub job_id: Seq<char>,
    pub payload: Seq<u8>,
    pub metadata: MetadataView,
}

impl View for PalomaMsg {
    type V = PalomaMsgView;

    open spec fn view(&self) -> PalomaMsgView {
        PalomaMsgView { job_id: self.job_id@, payload: self.payload@, metadata: self.metadata@ }
    }
}

/// The questions that anyone may ask.
#[derive(Clone, Copy, Debug, PartialEq, Eq, Structural)]
pub enum QueryMsg {
    /// Asks for the remote job that the relay targets.
    GetJobId {  },
}

/// The answer to [`QueryMsg::GetJobId`].
#[derive(Clone, Debug, PartialEq, Eq)]
pub struct GetJobIdResponse {
    pub job_id: String,
}

} // verus!
