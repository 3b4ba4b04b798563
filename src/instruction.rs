//! The instruction table: which (method, path) pairs the exchange requires
//! to be signed, and the instruction name that stands for each inside the
//! signee. A pair absent from the table is sent unsigned.

use crate::text::str_eq;
use vstd::prelude::*;

verus! {

/// The HTTP method of a request.
#[derive(Clone, Copy, Debug, PartialEq, Eq, Structural)]
pub enum Method {
    Get,
    Post,
    Put,
    Delete,
    Patch,
    Head,
    Options,
}
pub const API_CAPITAL: &'static str = "/api/v1/capital";
pub const API_DEPOSITS: &'static str = "/wapi/v1/capital/deposits";
pub const API_DEPOSIT_ADDRESS: &'static str = "/wapi/v1/capital/deposit/address";
pub const API_WITHDRAWALS: &'static str = "/wapi/v1/capital/withdrawals";
pub const API_USER_2FA: &'static str = "/wapi/v1/user/2fa";
pub const API_ORDER: &'static str = "/api/v1/order";
pub const API_ORDERS: &'static str = "/api/v1/orders";
pub const API_RFQ: &'static str = "/api/v1/rfq";
pub const API_RFQ_QUOTE: &'static str = "/api/v1/rfq/quote";
pub const API_RFQ_ACCEPT: &'static str = "/api/v1/rfq/accept";
pub const API_RFQ_CANCEL: &'static str = "/api/v1/rfq/cancel";
pub const API_RFQ_REFRESH: &'static str = "/api/v1/rfq/refresh";
pub const API_FUTURES_POSITION: &'static str = "/api/v1/position";
pub const API_BORROW_LEND_POSITIONS: &'static str = "/api/v1/borrowLend/positions";
pub const API_COLLATERAL: &'static str = "/api/v1/capital/collateral";
pub const API_ACCOUNT: &'static str = "/api/v1/account";
pub const API_ACCOUNT_MAX_BORROW: &'static str = "/api/v1/account/limits/borrow";
pub const API_ACCOUNT_MAX_ORDER: &'static str = "/api/v1/account/limits/order";
pub const API_ACCOUNT_MAX_WITHDRAWAL: &'static str = "/api/v1/account/limits/withdrawal";
pub const API_ACCOUNT_CONVERT_DUST: &'static str = "/api/v1/account/convertDust";
pub const API_FILLS_HISTORY: &'static str = "/wapi/v1/history/fills";
pub const API_VAULT_PENDING_REDEEMS: &'static str = "/api/v1/vault/redeems/pending";

/// The instruction for `method` on `path`, or `None` for a request that is
/// sent without a signature.
pub open spec fn instruction_for(method: Method, path: Seq<char>) -> Option<Seq<char>> {
    if path == API_CAPITAL@ && method == Method::Get {
        Some("balanceQuery"@)
    } else if path == API_DEPOSITS@ && method == Method::Get {
        Some("depositQueryAll"@)
    } else if path == API_DEPOSIT_ADDRESS@ && method == Method::Get {
        Some("depositAddressQuery"@)
    } else if path == API_WITHDRAWALS@ && method == Method::Get {
        Some("withdrawalQueryAll"@)
    } else if path == API_WITHDRAWALS@ && method == Method::Post {
        Some("withdraw"@)
    } else if path == API_USER_2FA@ && method == Method::Post {
        Some("issueTwoFactorToken"@)
    } else if path == API_ORDER@ && method == Method::Get {
        Some("orderQuery"@)
    } else if path == API_ORDER@ && method == Method::Post {
        Some("orderExecute"@)
    } else if path == API_ORDER@ && method == Method::Delete {
        Some("orderCancel"@)
    } else if path == API_ORDERS@ && method == Method::Get {
        Some("orderQueryAll"@)
    } else if path == API_ORDERS@ && method == Method::Post {
        Some("orderExecute"@)
    } else if path == API_ORDERS@ && method == Method::Delete {
        Some("orderCancelAll"@)
    } else if path == API_RFQ@ && method == Method::Post {
        Some("rfqSubmit"@)
    } else if path == API_RFQ_QUOTE@ && method == Method::Post {
        Some("quoteSubmit"@)
    } else if path == API_RFQ_ACCEPT@ && method == Method::Post {
        Some("quoteAccept"@)
    } else if path == API_RFQ_CANCEL@ && method == Method::Post {
        Some("rfqCancel"@)
    } else if path == API_RFQ_REFRESH@ && method == Method::Post {
        Some("rfqRefresh"@)
    } else if path == API_FUTURES_POSITION@ && method == Method::Get {
        Some("positionQuery"@)
    } else if path == API_BORROW_LEND_POSITIONS@ && method == Method::Get {
        Some("borrowLendPositionQuery"@)
    } else if path == API_COLLATERAL@ && method == Method::Get {
        Some("collateralQuery"@)
    } else if path == API_ACCOUNT@ && method == Method::Get {
        Some("accountQuery"@)
    } else if path == API_ACCOUNT_MAX_BORROW@ && method == Method::Get {
        Some("maxBorrowQuantity"@)
    } else if path == API_ACCOUNT_MAX_ORDER@ && method == Method::Get {
        Some("maxOrderQuantity"@)
    } else if path == API_ACCOUNT_MAX_WITHDRAWAL@ && method == Method::Get {
        Some("maxWithdrawalQuantity"@)
    } else if path == API_ACCOUNT@ && method == Method::Patch {
        Some("accountUpdate"@)
    } else if path == API_ACCOUNT_CONVERT_DUST@ && method == Method::Post {
        Some("convertDust"@)
    } else if path == API_FILLS_HISTORY@ && method == Method::Get {
        Some("fillHistoryQueryAll"@)
    } else if path == API_VAULT_PENDING_REDEEMS@ && method == Method::Get {
        Some("vaultPendingRedeemsQuery"@)
    } else {
        None
    }
}

/// Looks up the instruction for `method` on `path` in the table.
pub fn resolve_instruction(method: Method, path: &str) -> (r: Option<&'static str>)
    ensures
        match r {
            Some(i) => instruction_for(method, path@) == Some(i@),
            None => instruction_for(method, path@) is None,
        },
{
    if method == Method::Get && str_eq(path, API_CAPITAL) {
        return Some("balanceQuery");
    }
    if method == Method::Get && str_eq(path, API_DEPOSITS) {
        return Some("depositQueryAll");
    }
    if method == Method::Get && str_eq(path, API_DEPOSIT_ADDRESS) {
        return Some("depositAddressQuery");
    }
    if method == Method::Get && str_eq(path, API_WITHDRAWALS) {
        return Some("withdrawalQueryAll");
    }
    if method == Method::Post && str_eq(path, API_WITHDRAWALS) {
        return Some("withdraw");
    }
    if method == Method::Post && str_eq(path, API_USER_2FA) {
        return Some("issueTwoFactorToken");
    }
    if method == Method::Get && str_eq(path, API_ORDER) {
        return Some("orderQuery");
    }
    if method == Method::Post && str_eq(path, API_ORDER) {
        return Some("orderExecute");
    }
    if method == Method::Delete && str_eq(path, API_ORDER) {
        return Some("orderCancel");
    }
    if method == Method::Get && str_eq(path, API_ORDERS) {
        return Some("orderQueryAll");
    }
    if method == Method::Post && str_eq(path, API_ORDERS) {
        return Some("orderExecute");
    }
    if method == Method::Delete && str_eq(path, API_ORDERS) {
        return Some("orderCancelAll");
    }
    if method == Method::Post && str_eq(path, API_RFQ) {
        return Some("rfqSubmit");
    }
    if method == Method::Post && str_eq(path, API_RFQ_QUOTE) {
        return Some("quoteSubmit");
    }
    if method == Method::Post && str_eq(path, API_RFQ_ACCEPT) {
        return Some("quoteAccept");
    }
    if method == Method::Post && str_eq(path, API_RFQ_CANCEL) {
        return Some("rfqCancel");
    }
    if method == Method::Post && str_eq(path, API_RFQ_REFRESH) {
        return Some("rfqRefresh");
    }
    if method == Method::Get && str_eq(path, API_FUTURES_POSITION) {
        return Some("positionQuery");
    }
    if method == Method::Get && str_eq(path, API_BORROW_LEND_POSITIONS) {
        return Some("borrowLendPositionQuery");
    }
    if method == Method::Get && str_eq(path, API_COLLATERAL) {
        return Some("collateralQuery");
    }
    if method == Method::Get && str_eq(path, API_ACCOUNT) {
        return Some("accountQuery");
    }
    if method == Method::Get && str_eq(path, API_ACCOUNT_MAX_BORROW) {
        return Some("maxBorrowQuantity");
    }
    if method == Method::Get && str_eq(path, API_ACCOUNT_MAX_ORDER) {
        return Some("maxOrderQuantity");
    }
    if method == Method::Get && str_eq(path, API_ACCOUNT_MAX_WITHDRAWAL) {
        return Some("maxWithdrawalQuantity");
    }
    if method == Method::Patch && str_eq(path, API_ACCOUNT) {
        return Some("accountUpdate");
    }
    if method == Method::Post && str_eq(path, API_ACCOUNT_CONVERT_DUST) {
        return Some("convertDust");
    }
    if method == Method::Get && str_eq(path, API_FILLS_HISTORY) {
        return Some("fillHistoryQueryAll");
    }
    if method == Method::Get && str_eq(path, API_VAULT_PENDING_REDEEMS) {
        return Some("vaultPendingRedeemsQuery");
    }
    None
}

} // verus!
