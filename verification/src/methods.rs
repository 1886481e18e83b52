//! The fixed method set of the duplex protocol.
//!
//! Every method is statically classified: a `Single` method answers with
//! exactly one response frame, a `Subscription` method streams zero or
//! more response frames and then ends. The name table here is the
//! immutable method-name-to-classification mapping built into the
//! gateway; an unknown name resolves to nothing and the caller gets an
//! invalid-request error.

use vstd::prelude::*;

use crate::json::str_eq;

verus! {

/// Methods answered with exactly one response frame.
#[derive(Clone, Copy, Debug, PartialEq, Eq, Structural)]
pub enum JsonRpcSingleMethod {
    AdminInfo,
    AdminBackup,
    AdminConfig,
    AdminDiscoverVersion,
    AdminModule,
    AdminRestore,
    AdminListOperations,
    MintReissue,
    MintSpend,
    MintValidate,
    MintSplit,
    MintCombine,
    LnInvoice,
    LnPay,
    LnListGateways,
    LnSwitchGateway,
    WalletDepositAddress,
}

/// Methods that stream response frames until their event stream ends.
#[derive(Clone, Copy, Debug, PartialEq, Eq, Structural)]
pub enum JsonSubscriptionMethod {
    LnAwaitInvoice,
    LnAwaitPay,
    WalletAwaitDeposit,
    WalletWithdraw,
}

/// A method together with its classification.
#[derive(Clone, Copy, Debug, PartialEq, Eq, Structural)]
pub enum JsonRpcMethod {
    Single(JsonRpcSingleMethod),
    Subscription(JsonSubscriptionMethod),
}

/// The wire name of each method.
pub open spec fn spec_method_name(m: JsonRpcMethod) -> Seq<char> {
    match m {
        JsonRpcMethod::Single(s) => match s {
            JsonRpcSingleMethod::AdminInfo => "admin-info"@,
            JsonRpcSingleMethod::AdminBackup => "admin-backup"@,
            JsonRpcSingleMethod::AdminConfig => "admin-config"@,
            JsonRpcSingleMethod::AdminDiscoverVersion => "admin-discover-version"@,
            JsonRpcSingleMethod::AdminModule => "admin-module"@,
            JsonRpcSingleMethod::AdminRestore => "admin-restore"@,
            JsonRpcSingleMethod::AdminListOperations => "admin-list-operations"@,
            JsonRpcSingleMethod::MintReissue => "mint-reissue"@,
            JsonRpcSingleMethod::MintSpend => "mint-spend"@,
            JsonRpcSingleMethod::MintValidate => "mint-validate"@,
            JsonRpcSingleMethod::MintSplit => "mint-split"@,
            JsonRpcSingleMethod::MintCombine => "mint-combine"@,
            JsonRpcSingleMethod::LnInvoice => "ln-invoice"@,
            JsonRpcSingleMethod::LnPay => "ln-pay"@,
            JsonRpcSingleMethod::LnListGateways => "ln-list-gateways"@,
            JsonRpcSingleMethod::LnSwitchGateway => "ln-switch-gateway"@,
            JsonRpcSingleMethod::WalletDepositAddress => "wallet-deposit-address"@,
        },
        JsonRpcMethod::Subscription(s) => match s {
            JsonSubscriptionMethod::LnAwaitInvoice => "ln-await-invoice"@,
            JsonSubscriptionMethod::LnAwaitPay => "ln-await-pay"@,
            JsonSubscriptionMethod::WalletAwaitDeposit => "wallet-await-deposit"@,
            JsonSubscriptionMethod::WalletWithdraw => "wallet-withdraw"@,
        },
    }
}

/// The method a wire name resolves to, if any.
pub open spec fn spec_method_from_name(name: Seq<char>) -> Option<JsonRpcMethod> {
    if name == "admin-info"@ {
        Some(JsonRpcMethod::Single(JsonRpcSingleMethod::AdminInfo))
    } else if name == "admin-backup"@ {
        Some(JsonRpcMethod::Single(JsonRpcSingleMethod::AdminBackup))
    } else if name == "admin-config"@ {
        Some(JsonRpcMethod::Single(JsonRpcSingleMethod::AdminConfig))
    } else if name == "admin-discover-version"@ {
        Some(JsonRpcMethod::Single(JsonRpcSingleMethod::AdminDiscoverVersion))
    } else if name == "admin-module"@ {
        Some(JsonRpcMethod::Single(JsonRpcSingleMethod::AdminModule))
    } else if name == "admin-restore"@ {
        Some(JsonRpcMethod::Single(JsonRpcSingleMethod::AdminRestore))
    } else if name == "admin-list-operations"@ {
        Some(JsonRpcMethod::Single(JsonRpcSingleMethod::AdminListOperations))
    } else if name == "mint-reissue"@ {
        Some(JsonRpcMethod::Single(JsonRpcSingleMethod::MintReissue))
    } else if name == "mint-spend"@ {
        Some(JsonRpcMethod::Single(JsonRpcSingleMethod::MintSpend))
    } else if name == "mint-validate"@ {
        Some(JsonRpcMethod::Single(JsonRpcSingleMethod::MintValidate))
    } else if name == "mint-split"@ {
        Some(JsonRpcMethod::Single(JsonRpcSingleMethod::MintSplit))
    } else if name == "mint-combine"@ {
        Some(JsonRpcMethod::Single(JsonRpcSingleMethod::MintCombine))
    } else if name == "ln-invoice"@ {
        Some(JsonRpcMethod::Single(JsonRpcSingleMethod::LnInvoice))
    } else if name == "ln-pay"@ {
        Some(JsonRpcMethod::Single(JsonRpcSingleMethod::LnPay))
    } else if name == "ln-list-gateways"@ {
        Some(JsonRpcMethod::Single(JsonRpcSingleMethod::LnListGateways))
    } else if name == "ln-switch-gateway"@ {
        Some(JsonRpcMethod::Single(JsonRpcSingleMethod::LnSwitchGateway))
    } else if name == "wallet-deposit-address"@ {
        Some(JsonRpcMethod::Single(JsonRpcSingleMethod::WalletDepositAddress))
    } else if name == "ln-await-invoice"@ {
        Some(JsonRpcMethod::Subscription(JsonSubscriptionMethod::LnAwaitInvoice))
    } else if name == "ln-await-pay"@ {
        Some(JsonRpcMethod::Subscription(JsonSubscriptionMethod::LnAwaitPay))
    } else if name == "wallet-await-deposit"@ {
        Some(JsonRpcMethod::Subscription(JsonSubscriptionMethod::WalletAwaitDeposit))
    } else if name == "wallet-withdraw"@ {
        Some(JsonRpcMethod::Subscription(JsonSubscriptionMethod::WalletWithdraw))
    } else {
        None
    }
}

/// Law: the name table is consistent — every method's wire name
/// resolves back to exactly that method.
pub proof fn lemma_method_name_round_trip(m: JsonRpcMethod)
    ensures
        spec_method_from_name(spec_method_name(m)) == Some(m),
{
    reveal_strlit("admin-info");
    reveal_strlit("admin-backup");
    reveal_strlit("admin-config");
    reveal_strlit("admin-discover-version");
    reveal_strlit("admin-module");
    reveal_strlit("admin-restore");
    reveal_strlit("admin-list-operations");
    reveal_strlit("mint-reissue");
    reveal_strlit("mint-spend");
    reveal_strlit("mint-validate");
    reveal_strlit("mint-split");
    reveal_strlit("mint-combine");
    reveal_strlit("ln-invoice");
    reveal_strlit("ln-pay");
    reveal_strlit("ln-list-gateways");
    reveal_strlit("ln-switch-gateway");
    reveal_strlit("wallet-deposit-address");
    reveal_strlit("ln-await-invoice");
    reveal_strlit("ln-await-pay");
    reveal_strlit("wallet-await-deposit");
    reveal_strlit("wallet-withdraw");
    // names of one length are told apart by a character
    assert("admin-info"@.len() == 10 && "mint-spend"@.len() == 10 && "mint-split"@.len() == 10
        && "ln-invoice"@.len() == 10);
    assert("admin-backup"@.len() == 12 && "admin-config"@.len() == 12 && "admin-module"@.len()
        == 12 && "mint-reissue"@.len() == 12 && "mint-combine"@.len() == 12
        && "ln-await-pay"@.len() == 12);
    assert("admin-restore"@.len() == 13 && "mint-validate"@.len() == 13);
    assert("ln-list-gateways"@.len() == 16 && "ln-await-invoice"@.len() == 16);
    assert("admin-discover-version"@.len() == 22 && "wallet-deposit-address"@.len() == 22);
    assert("admin-list-operations"@.len() == 21 && "ln-switch-gateway"@.len() == 17
        && "wallet-await-deposit"@.len() == 20 && "wallet-withdraw"@.len() == 15 && "ln-pay"@.len()
        == 6);
    assert("admin-info"@[0] == 'a' && "mint-spend"@[0] == 'm' && "mint-split"@[0] == 'm'
        && "ln-invoice"@[0] == 'l');
    assert("mint-spend"@[7] == 'e' && "mint-split"@[7] == 'l');
    assert("admin-backup"@[0] == 'a' && "admin-config"@[0] == 'a' && "admin-module"@[0] == 'a'
        && "mint-reissue"@[0] == 'm' && "mint-combine"@[0] == 'm' && "ln-await-pay"@[0] == 'l');
    assert("admin-backup"@[6] == 'b' && "admin-config"@[6] == 'c' && "admin-module"@[6] == 'm');
    assert("mint-reissue"@[5] == 'r' && "mint-combine"@[5] == 'c');
    assert("admin-restore"@[0] == 'a' && "mint-validate"@[0] == 'm');
    assert("ln-list-gateways"@[3] == 'l' && "ln-await-invoice"@[3] == 'a');
    assert("admin-discover-version"@[0] == 'a' && "wallet-deposit-address"@[0] == 'w');
}

impl JsonRpcMethod {
    /// The wire name of this method.
    pub fn name(&self) -> (r: &'static str)
        ensures
            r@ == spec_method_name(*self),
    {
        match self {
            JsonRpcMethod::Single(s) => match s {
                JsonRpcSingleMethod::AdminInfo => "admin-info",
                JsonRpcSingleMethod::AdminBackup => "admin-backup",
                JsonRpcSingleMethod::AdminConfig => "admin-config",
                JsonRpcSingleMethod::AdminDiscoverVersion => "admin-discover-version",
                JsonRpcSingleMethod::AdminModule => "admin-module",
                JsonRpcSingleMethod::AdminRestore => "admin-restore",
                JsonRpcSingleMethod::AdminListOperations => "admin-list-operations",
                JsonRpcSingleMethod::MintReissue => "mint-reissue",
                JsonRpcSingleMethod::MintSpend => "mint-spend",
                JsonRpcSingleMethod::MintValidate => "mint-validate",
                JsonRpcSingleMethod::MintSplit => "mint-split",
                JsonRpcSingleMethod::MintCombine => "mint-combine",
                JsonRpcSingleMethod::LnInvoice => "ln-invoice",
                JsonRpcSingleMethod::LnPay => "ln-pay",
                JsonRpcSingleMethod::LnListGateways => "ln-list-gateways",
                JsonRpcSingleMethod::LnSwitchGateway => "ln-switch-gateway",
                JsonRpcSingleMethod::WalletDepositAddress => "wallet-deposit-address",
            },
            JsonRpcMethod::Subscription(s) => match s {
                JsonSubscriptionMethod::LnAwaitInvoice => "ln-await-invoice",
                JsonSubscriptionMethod::LnAwaitPay => "ln-await-pay",
                JsonSubscriptionMethod::WalletAwaitDeposit => "wallet-await-deposit",
                JsonSubscriptionMethod::WalletWithdraw => "wallet-withdraw",
            },
        }
    }

    /// Look a wire name up in the method table.
    pub fn from_name(name: &str) -> (r: Option<JsonRpcMethod>)
        ensures
            r == spec_method_from_name(name@),
    {
        if str_eq(name, "admin-info") {
            Some(JsonRpcMethod::Single(JsonRpcSingleMethod::AdminInfo))
        } else if str_eq(name, "admin-backup") {
            Some(JsonRpcMethod::Single(JsonRpcSingleMethod::AdminBackup))
        } else if str_eq(name, "admin-config") {
            Some(JsonRpcMethod::Single(JsonRpcSingleMethod::AdminConfig))
        } else if str_eq(name, "admin-discover-version") {
            Some(JsonRpcMethod::Single(JsonRpcSingleMethod::AdminDiscoverVersion))
        } else if str_eq(name, "admin-module") {
            Some(JsonRpcMethod::Single(JsonRpcSingleMethod::AdminModule))
        } else if str_eq(name, "admin-restore") {
            Some(JsonRpcMethod::Single(JsonRpcSingleMethod::AdminRestore))
        } else if str_eq(name, "admin-list-operations") {
            Some(JsonRpcMethod::Single(JsonRpcSingleMethod::AdminListOperations))
        } else if str_eq(name, "mint-reissue") {
            Some(JsonRpcMethod::Single(JsonRpcSingleMethod::MintReissue))
        } else if str_eq(name, "mint-spend") {
            Some(JsonRpcMethod::Single(JsonRpcSingleMethod::MintSpend))
        } else if str_eq(name, "mint-validate") {
            Some(JsonRpcMethod::Single(JsonRpcSingleMethod::MintValidate))
        } else if str_eq(name, "mint-split") {
            Some(JsonRpcMethod::Single(JsonRpcSingleMethod::MintSplit))
        } else if str_eq(name, "mint-combine") {
            Some(JsonRpcMethod::Single(JsonRpcSingleMethod::MintCombine))
        } else if str_eq(name, "ln-invoice") {
            Some(JsonRpcMethod::Single(JsonRpcSingleMethod::LnInvoice))
        } else if str_eq(name, "ln-pay") {
            Some(JsonRpcMethod::Single(JsonRpcSingleMethod::LnPay))
        } else if str_eq(name, "ln-list-gateways") {
            Some(JsonRpcMethod::Single(JsonRpcSingleMethod::LnListGateways))
        } else if str_eq(name, "ln-switch-gateway") {
            Some(JsonRpcMethod::Single(JsonRpcSingleMethod::LnSwitchGateway))
        } else if str_eq(name, "wallet-deposit-address") {
            Some(JsonRpcMethod::Single(JsonRpcSingleMethod::WalletDepositAddress))
        } else if str_eq(name, "ln-await-invoice") {
            Some(JsonRpcMethod::Subscription(JsonSubscriptionMethod::LnAwaitInvoice))
        } else if str_eq(name, "ln-await-pay") {
            Some(JsonRpcMethod::Subscription(JsonSubscriptionMethod::LnAwaitPay))
        } else if str_eq(name, "wallet-await-deposit") {
            Some(JsonRpcMethod::Subscription(JsonSubscriptionMethod::WalletAwaitDeposit))
        } else if str_eq(name, "wallet-withdraw") {
            Some(JsonRpcMethod::Subscription(JsonSubscriptionMethod::WalletWithdraw))
        } else {
            None
        }
    }
}

} // verus!
