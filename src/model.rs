use vstd::prelude::*;
use vstd::string::*;
use crate::error::BoothError;
use crate::text::str_eq;

verus! {

/// A thematic mode; `effects` is filled in from the effects table on read.
#[derive(Debug)]
pub struct PhotoMode {
    pub id: String,
    pub name: String,
    pub description: String,
    pub icon: String,
    pub effects: Vec<Effect>,
}

/// A mode as stored in the catalog, without its effects.
#[derive(Debug)]
pub struct ModeRow {
    pub id: String,
    pub name: String,
    pub description: String,
    pub icon: String,
}

/// A prompt variant within a mode, with its prices in minor currency units.
#[derive(Debug)]
pub struct Effect {
    pub id: String,
    pub mode_id: String,
    pub name: String,
    pub prompt: String,
    pub thumbnail: String,
    pub price_download: i32,
    pub price_print: i32,
}

/// An optional prompt template applied on top of an effect's prompt.
#[derive(Debug)]
pub struct Style {
    pub id: String,
    pub name: String,
    pub description: String,
    pub icon: String,
    pub prompt_template: String,
}

/// One user's run through capture, generation and preview.
#[derive(Debug)]
pub struct PhotoSession {
    pub id: String,
    pub mode_id: String,
    pub effect_id: String,
    pub style_id: Option<String>,
    pub original_photo: Option<String>,
    pub generated_photo: Option<String>,
    pub status: SessionStatus,
    pub created_at: i64,
    pub updated_at: i64,
}

#[derive(Clone, Copy, Debug, PartialEq, Eq, Structural)]
pub enum SessionStatus {
    SelectingMode,
    SelectingEffect,
    Capturing,
    Processing,
    Previewing,
    Completed,
}

/// A payment request tied to a session.
#[derive(Debug)]
pub struct Order {
    pub id: String,
    pub session_id: String,
    pub order_type: OrderType,
    pub amount: i32,
    pub status: OrderStatus,
    pub wechat_order_id: Option<String>,
    pub payment_time: Option<i64>,
    pub created_at: i64,
}

#[derive(Clone, Copy, Debug, PartialEq, Eq, Structural)]
pub enum OrderType {
    Download,
    Print,
}

#[derive(Clone, Copy, Debug, PartialEq, Eq, Structural)]
pub enum OrderStatus {
    Pending,
    Paid,
    Cancelled,
    Refunded,
}

/// The step a kiosk user is at, tracked beside each photo session.
#[derive(Debug)]
pub struct UserSession {
    pub session_id: String,
    pub current_step: Step,
    pub mode_id: Option<String>,
    pub effect_id: Option<String>,
    pub expires_at: i64,
}

#[derive(Clone, Copy, Debug, PartialEq, Eq, Structural)]
pub enum Step {
    Home,
    SelectMode,
    SelectEffect,
    Capture,
    Preview,
    Payment,
    Download,
}

/// The characters of an optional string.
pub open spec fn opt_view(o: Option<String>) -> Option<Seq<char>> {
    match o {
        Some(x) => Some(x@),
        None => None,
    }
}

/// Copies an optional string, keeping its contents.
pub fn copy_opt_string(s: &Option<String>) -> (r: Option<String>)
    ensures
        r == *s,
{
    match s {
        Some(x) => Some(x.clone()),
        None => None,
    }
}

impl Clone for ModeRow {
    fn clone(&self) -> (r: Self)
        ensures
            r == *self,
    {
        ModeRow {
            id: self.id.clone(),
            name: self.name.clone(),
            description: self.description.clone(),
            icon: self.icon.clone(),
        }
    }
}

impl Clone for Effect {
    fn clone(&self) -> (r: Self)
        ensures
            r == *self,
    {
        Effect {
            id: self.id.clone(),
            mode_id: self.mode_id.clone(),
            name: self.name.clone(),
            prompt: self.prompt.clone(),
            thumbnail: self.thumbnail.clone(),
            price_download: self.price_download,
            price_print: self.price_print,
        }
    }
}

impl Clone for Style {
    fn clone(&self) -> (r: Self)
        ensures
            r == *self,
    {
        Style {
            id: self.id.clone(),
            name: self.name.clone(),
            description: self.description.clone(),
            icon: self.icon.clone(),
            prompt_template: self.prompt_template.clone(),
        }
    }
}

impl Clone for PhotoSession {
    fn clone(&self) -> (r: Self)
        ensures
            r == *self,
    {
        PhotoSession {
            id: self.id.clone(),
            mode_id: self.mode_id.clone(),
            effect_id: self.effect_id.clone(),
            style_id: copy_opt_string(&self.style_id),
            original_photo: copy_opt_string(&self.original_photo),
            generated_photo: copy_opt_string(&self.generated_photo),
            status: self.status,
            created_at: self.created_at,
            updated_at: self.updated_at,
        }
    }
}

impl Clone for Order {
    fn clone(&self) -> (r: Self)
        ensures
            r == *self,
    {
        Order {
            id: self.id.clone(),
            session_id: self.session_id.clone(),
            order_type: self.order_type,
            amount: self.amount,
            status: self.status,
            wechat_order_id: copy_opt_string(&self.wechat_order_id),
            payment_time: self.payment_time,
            created_at: self.created_at,
        }
    }
}

impl Clone for UserSession {
    fn clone(&self) -> (r: Self)
        ensures
            r == *self,
    {
        UserSession {
            session_id: self.session_id.clone(),
            current_step: self.current_step,
            mode_id: copy_opt_string(&self.mode_id),
            effect_id: copy_opt_string(&self.effect_id),
            expires_at: self.expires_at,
        }
    }
}

impl SessionStatus {
    /// The stored name of the status.
    pub open spec fn name_of(self) -> Seq<char> {
        match self {
            SessionStatus::SelectingMode => "selecting_mode"@,
            SessionStatus::SelectingEffect => "selecting_effect"@,
            SessionStatus::Capturing => "capturing"@,
            SessionStatus::Processing => "processing"@,
            SessionStatus::Previewing => "previewing"@,
            SessionStatus::Completed => "completed"@,
        }
    }

    pub fn to_string(&self) -> (r: String)
        ensures
            r@ == self.name_of(),
    {
        match self {
            SessionStatus::SelectingMode => String::from_str("selecting_mode"),
            SessionStatus::SelectingEffect => String::from_str("selecting_effect"),
            SessionStatus::Capturing => String::from_str("capturing"),
            SessionStatus::Processing => String::from_str("processing"),
            SessionStatus::Previewing => String::from_str("previewing"),
            SessionStatus::Completed => String::from_str("completed"),
        }
    }

    /// Parses a stored status name; any other text is an invalid argument.
    pub fn from_str(s: &str) -> (r: Result<SessionStatus, BoothError>)
        ensures
            match r {
                Ok(st) => st.name_of() == s@,
                Err(e) => e == BoothError::InvalidArgument && forall|st: SessionStatus|
                    #[trigger] st.name_of() != s@,
            },
    {
        if str_eq(s, "selecting_mode") {
            Ok(SessionStatus::SelectingMode)
        } else if str_eq(s, "selecting_effect") {
            Ok(SessionStatus::SelectingEffect)
        } else if str_eq(s, "capturing") {
            Ok(SessionStatus::Capturing)
        } else if str_eq(s, "processing") {
            Ok(SessionStatus::Processing)
        } else if str_eq(s, "previewing") {
            Ok(SessionStatus::Previewing)
        } else if str_eq(s, "completed") {
            Ok(SessionStatus::Completed)
        } else {
            Err(BoothError::InvalidArgument)
        }
    }
}

impl OrderType {
    pub open spec fn name_of(self) -> Seq<char> {
        match self {
            OrderType::Download => "download"@,
            OrderType::Print => "print"@,
        }
    }

    pub fn to_string(&self) -> (r: String)
        ensures
            r@ == self.name_of(),
    {
        match self {
            OrderType::Download => String::from_str("download"),
            OrderType::Print => String::from_str("print"),
        }
    }

    /// Parses `download` or `print`; any other text is an invalid argument.
    pub fn from_str(s: &str) -> (r: Result<OrderType, BoothError>)
        ensures
            match r {
                Ok(t) => t.name_of() == s@,
                Err(e) => e == BoothError::InvalidArgument && forall|t: OrderType|
                    #[trigger] t.name_of() != s@,
            },
    {
        if str_eq(s, "download") {
            Ok(OrderType::Download)
        } else if str_eq(s, "print") {
            Ok(OrderType::Print)
        } else {
            Err(BoothError::InvalidArgument)
        }
    }
}

impl OrderStatus {
    pub open spec fn name_of(self) -> Seq<char> {
        match self {
            OrderStatus::Pending => "pending"@,
            OrderStatus::Paid => "paid"@,
            OrderStatus::Cancelled => "cancelled"@,
            OrderStatus::Refunded => "refunded"@,
        }
    }

    pub fn to_string(&self) -> (r: String)
        ensures
            r@ == self.name_of(),
    {
        match self {
            OrderStatus::Pending => String::from_str("pending"),
            OrderStatus::Paid => String::from_str("paid"),
            OrderStatus::Cancelled => String::from_str("cancelled"),
            OrderStatus::Refunded => String::from_str("refunded"),
        }
    }

    /// Parses a stored order status name; any other text is an invalid argument.
    pub fn from_str(s: &str) -> (r: Result<OrderStatus, BoothError>)
        ensures
            match r {
                Ok(st) => st.name_of() == s@,
                Err(e) => e == BoothError::InvalidArgument && forall|st: OrderStatus|
                    #[trigger] st.name_of() != s@,
            },
    {
        if str_eq(s, "pending") {
            Ok(OrderStatus::Pending)
        } else if str_eq(s, "paid") {
            Ok(OrderStatus::Paid)
        } else if str_eq(s, "cancelled") {
            Ok(OrderStatus::Cancelled)
        } else if str_eq(s, "refunded") {
            Ok(OrderStatus::Refunded)
        } else {
            Err(BoothError::InvalidArgument)
        }
    }
}

impl Step {
    pub open spec fn name_of(self) -> Seq<char> {
        match self {
            Step::Home => "home"@,
            Step::SelectMode => "select_mode"@,
            Step::SelectEffect => "select_effect"@,
            Step::Capture => "capture"@,
            Step::Preview => "preview"@,
            Step::Payment => "payment"@,
            Step::Download => "download"@,
        }
    }

    pub fn to_string(&self) -> (r: String)
        ensures
            r@ == self.name_of(),
    {
        match self {
            Step::Home => String::from_str("home"),
            Step::SelectMode => String::from_str("select_mode"),
            Step::SelectEffect => String::from_str("select_effect"),
            Step::Capture => String::from_str("capture"),
            Step::Preview => String::from_str("preview"),
            Step::Payment => String::from_str("payment"),
            Step::Download => String::from_str("download"),
        }
    }

    /// Parses a stored step name; any other text is an invalid argument.
    pub fn from_str(s: &str) -> (r: Result<Step, BoothError>)
        ensures
            match r {
                Ok(st) => st.name_of() == s@,
                Err(e) => e == BoothError::InvalidArgument && forall|st: Step|
                    #[trigger] st.name_of() != s@,
            },
    {
        if str_eq(s, "home") {
            Ok(Step::Home)
        } else if str_eq(s, "select_mode") {
            Ok(Step::SelectMode)
        } else if str_eq(s, "select_effect") {
            Ok(Step::SelectEffect)
        } else if str_eq(s, "capture") {
            Ok(Step::Capture)
        } else if str_eq(s, "preview") {
            Ok(Step::Preview)
        } else if str_eq(s, "payment") {
            Ok(Step::Payment)
        } else if str_eq(s, "download") {
            Ok(Step::Download)
        } else {
            Err(BoothError::InvalidArgument)
        }
    }
}

/// Distinct session statuses have distinct names, so parsing the name of a
/// status gives that status back.
pub proof fn law_session_status_names(a: SessionStatus, b: SessionStatus)
    ensures
        a.name_of() == b.name_of() ==> a == b,
{
    reveal_strlit("selecting_mode");
    reveal_strlit("selecting_effect");
    reveal_strlit("capturing");
    reveal_strlit("processing");
    reveal_strlit("previewing");
    reveal_strlit("completed");
    if a.name_of() == b.name_of() {
        assert(a.name_of().len() == b.name_of().len());
        assert(a.name_of()[1] == b.name_of()[1]);
        assert(a.name_of()[2] == b.name_of()[2]);
    }
}

/// Distinct order types have distinct names.
pub proof fn law_order_type_names(a: OrderType, b: OrderType)
    ensures
        a.name_of() == b.name_of() ==> a == b,
{
    reveal_strlit("download");
    reveal_strlit("print");
    if a.name_of() == b.name_of() {
        assert(a.name_of().len() == b.name_of().len());
    }
}

/// Distinct order statuses have distinct names.
pub proof fn law_order_status_names(a: OrderStatus, b: OrderStatus)
    ensures
        a.name_of() == b.name_of() ==> a == b,
{
    reveal_strlit("pending");
    reveal_strlit("paid");
    reveal_strlit("cancelled");
    reveal_strlit("refunded");
    if a.name_of() == b.name_of() {
        assert(a.name_of().len() == b.name_of().len());
    }
}

/// Distinct steps have distinct names.
pub proof fn law_step_names(a: Step, b: Step)
    ensures
        a.name_of() == b.name_of() ==> a == b,
{
    reveal_strlit("home");
    reveal_strlit("select_mode");
    reveal_strlit("select_effect");
    reveal_strlit("capture");
    reveal_strlit("preview");
    reveal_strlit("payment");
    reveal_strlit("download");
    if a.name_of() == b.name_of() {
        assert(a.name_of().len() == b.name_of().len());
        assert(a.name_of()[0] == b.name_of()[0]);
        assert(a.name_of()[1] == b.name_of()[1]);
    }
}

} // verus!
