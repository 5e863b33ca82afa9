use vstd::prelude::*;
use vstd::string::*;
use crate::ambient::now_millis;
use crate::decimal::{decimal, decimal_of};
use crate::error::{BoothError, Setting};

verus! {

/// The fields of a unified order request to the payment provider.
#[derive(Debug)]
pub struct WeChatPayRequest {
    appid: String,
    mch_id: String,
    nonce_str: String,
    sign: String,
    body: String,
    out_trade_no: String,
    total_fee: i32,
    spbill_create_ip: String,
    notify_url: String,
    trade_type: String,
}

/// The fields of the payment provider's answer to a unified order request.
#[derive(Debug)]
pub struct WeChatPayResponse {
    return_code: String,
    return_msg: String,
    result_code: String,
    prepay_id: String,
    qr_code: String,
}

/// The payment client. Orders are synthesised locally: no provider is called.
pub struct WeChatService {
    pub app_id: String,
    pub mch_id: String,
    pub api_key: String,
    pub notify_url: String,
}

/// The scannable payment address for `prepay_id`.
pub open spec fn qr_code_url(prepay_id: Seq<char>) -> Seq<char> {
    "weixin://wxpay/bizpayurl?pr="@ + prepay_id
}

/// The provider handle synthesised for `order_id` at `millis`.
pub open spec fn prepay_id_of(order_id: Seq<char>, millis: int) -> Seq<char> {
    "prepay_"@ + order_id + "_"@ + decimal_of(millis)
}

impl WeChatService {
    /// A client from its settings; the application id, merchant id and API
    /// key are required, the notification address defaults to empty.
    pub fn new(
        app_id: Option<String>,
        mch_id: Option<String>,
        api_key: Option<String>,
        notify_url: Option<String>,
    ) -> (r: Result<WeChatService, BoothError>)
        ensures
            match (app_id, mch_id, api_key) {
                (Some(a), Some(m), Some(k)) => r is Ok && r->Ok_0.app_id == a && r->Ok_0.mch_id == m
                    && r->Ok_0.api_key == k && r->Ok_0.notify_url@ == match notify_url {
                        Some(u) => u@,
                        None => Seq::<char>::empty(),
                    },
                (None, _, _) => r == Err::<WeChatService, BoothError>(BoothError::MissingSetting(Setting::AppId)),
                (Some(_), None, _) => r == Err::<WeChatService, BoothError>(BoothError::MissingSetting(Setting::MerchantId)),
                (Some(_), Some(_), None) => r == Err::<WeChatService, BoothError>(BoothError::MissingSetting(Setting::ApiKey)),
            },
    {
        let app_id = match app_id {
            Some(a) => a,
            None => return Err(BoothError::MissingSetting(Setting::AppId)),
        };
        let mch_id = match mch_id {
            Some(m) => m,
            None => return Err(BoothError::MissingSetting(Setting::MerchantId)),
        };
        let api_key = match api_key {
            Some(k) => k,
            None => return Err(BoothError::MissingSetting(Setting::ApiKey)),
        };
        let notify_url = match notify_url {
            Some(u) => u,
            None => String::new(),
        };
        Ok(WeChatService { app_id, mch_id, api_key, notify_url })
    }

    pub fn create_qr_code_url(&self, prepay_id: &str) -> (r: String)
        ensures
            r@ == qr_code_url(prepay_id@),
    {
        let mut s = String::from_str("weixin://wxpay/bizpayurl?pr=");
        s.append(prepay_id);
        s
    }

    /// The provider handle for `order_id` at `millis`.
    pub fn prepay_id_at(&self, order_id: &str, millis: i64) -> (r: String)
        ensures
            r@ == prepay_id_of(order_id@, millis as int),
    {
        let mut s = String::from_str("prepay_");
        s.append(order_id);
        s.append("_");
        let digits = decimal(millis);
        s.append(digits.as_str());
        s
    }

    /// Registers a payment for `order_id`: a provider handle stamped with the
    /// current time and its scannable address. Always succeeds.
    pub fn create_order(&self, order_id: &str, amount: i32, description: &str) -> (r: Result<(String, String), BoothError>)
        ensures
            r is Ok,
            exists|millis: i64| #[trigger] prepay_id_of(order_id@, millis as int) == r->Ok_0.0@,
            r->Ok_0.1@ == qr_code_url(r->Ok_0.0@),
    {
        let millis = now_millis();
        let prepay_id = self.prepay_id_at(order_id, millis);
        let qr_code = self.create_qr_code_url(prepay_id.as_str());
        Ok((prepay_id, qr_code))
    }

    /// The provider's status of a payment: always `SUCCESS`, meaning paid.
    pub fn query_order(&self, wechat_order_id: &str) -> (r: Result<String, BoothError>)
        ensures
            r is Ok && r->Ok_0@ == "SUCCESS"@,
    {
        Ok(String::from_str("SUCCESS"))
    }
}

} // verus!
