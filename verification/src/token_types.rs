use vstd::prelude::*;

use crate::errors::SystemError;

verus! {

/// Kinds of token. None is defined yet; the one variant stands in until
/// they are (Verus needs an enum to have a variant).
#[derive(Clone, Copy, Debug, PartialEq, Eq, Structural)]
pub enum TokenType {
    Unspecified,
}

/// Kinds of wallet. None is defined yet; the one variant stands in until
/// they are.
#[derive(Clone, Copy, Debug, PartialEq, Eq, Structural)]
pub enum WalletType {
    Unspecified,
}

/// Kinds of network. None is defined yet; the one variant stands in until
/// they are.
#[derive(Clone, Copy, Debug, PartialEq, Eq, Structural)]
pub enum NetworkType {
    Unspecified,
}

/// Signature curves. None is defined yet; the one variant stands in until
/// they are.
#[derive(Clone, Copy, Debug, PartialEq, Eq, Structural)]
pub enum Curve {
    Unspecified,
}

/// Hash functions. None is defined yet; the one variant stands in until
/// they are.
#[derive(Clone, Copy, Debug, PartialEq, Eq, Structural)]
pub enum HashType {
    Unspecified,
}

/// A token with its keys, parties, amounts and commitments.
pub struct Token {
    pub token_type: TokenType,
    pub wallet_type: WalletType,
    pub network_type: NetworkType,
    pub curve: Curve,
    pub hash_type: HashType,
    pub public_key: [u8; 32],
    pub private_key: [u8; 32],
    pub signature: [u8; 64],
    pub message: [u8; 32],
    pub nullifier: [u8; 32],
    pub input_owner: [u8; 32],
    pub output_owner: [u8; 32],
    pub amount: u64,
    pub fee: u64,
    pub nonce: u64,
    pub memo: [u8; 32],
    pub root: [u8; 32],
    pub nullifier_hash: [u8; 32],
    pub recipient: [u8; 32],
}

impl Token {
    /// A token holding exactly the given values.
    pub fn generate_token(
        token_type: TokenType,
        wallet_type: WalletType,
        network_type: NetworkType,
        curve: Curve,
        hash_type: HashType,
        public_key: [u8; 32],
        private_key: [u8; 32],
        signature: [u8; 64],
        message: [u8; 32],
        nullifier: [u8; 32],
        input_owner: [u8; 32],
        output_owner: [u8; 32],
        amount: u64,
        fee: u64,
        nonce: u64,
        memo: [u8; 32],
        root: [u8; 32],
        nullifier_hash: [u8; 32],
        recipient: [u8; 32],
    ) -> (r: Result<Token, SystemError>)
        ensures
            r matches Ok(t) && {
                &&& t.token_type == token_type
                &&& t.wallet_type == wallet_type
                &&& t.network_type == network_type
                &&& t.curve == curve
                &&& t.hash_type == hash_type
                &&& t.public_key == public_key
                &&& t.private_key == private_key
                &&& t.signature == signature
                &&& t.message == message
                &&& t.nullifier == nullifier
                &&& t.input_owner == input_owner
                &&& t.output_owner == output_owner
                &&& t.amount == amount
                &&& t.fee == fee
                &&& t.nonce == nonce
                &&& t.memo == memo
                &&& t.root == root
                &&& t.nullifier_hash == nullifier_hash
                &&& t.recipient == recipient
            },
    {
        Ok(Token {
            token_type,
            wallet_type,
            network_type,
            curve,
            hash_type,
            public_key,
            private_key,
            signature,
            message,
            nullifier,
            input_owner,
            output_owner,
            amount,
            fee,
            nonce,
            memo,
            root,
            nullifier_hash,
            recipient,
        })
    }
}

} // verus!
