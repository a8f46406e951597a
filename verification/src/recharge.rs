//! The sponsoring form: what counts as a user name and as an order number.

use vstd::prelude::*;

verus! {

/// The field of the form that takes the input.
#[derive(Clone, Copy, PartialEq, Eq, Structural, Debug)]
pub enum RechargeField {
    Username,
    OrderId,
}

impl Default for RechargeField {
    fn default() -> (field: RechargeField)
        ensures
            field == RechargeField::Username,
    {
        RechargeField::Username
    }
}

/// Why a user name is turned down.
#[derive(Clone, Copy, PartialEq, Eq, Structural, Debug)]
pub enum UsernameError {
    Empty,
    /// It starts or ends with white space.
    Untrimmed,
    /// It is shorter than 3 or longer than 20 characters.
    Length,
    /// It does not start with a letter.
    FirstNotLetter,
    /// It holds something other than letters, digits and underscores.
    BadCharacter,
}

/// Why an order number is turned down.
#[derive(Clone, Copy, PartialEq, Eq, Structural, Debug)]
pub enum OrderIdError {
    Empty,
    /// It starts or ends with white space.
    Untrimmed,
    /// It is longer than 64 characters.
    TooLong,
    /// It holds something other than letters, digits, hyphens and underscores.
    BadCharacter,
}

/// Whether `c` is white space.
pub open spec fn is_space(c: char) -> bool {
    let code = c as u32;
    ||| 0x09 <= code <= 0x0d
    ||| code == 0x20
    ||| code == 0x85
    ||| code == 0xa0
    ||| code == 0x1680
    ||| 0x2000 <= code <= 0x200a
    ||| code == 0x2028
    ||| code == 0x2029
    ||| code == 0x202f
    ||| code == 0x205f
    ||| code == 0x3000
}

/// Whether `c` is one of the letters `A` to `Z` and `a` to `z`.
pub open spec fn is_letter(c: char) -> bool {
    ('A' <= c && c <= 'Z') || ('a' <= c && c <= 'z')
}

/// Whether `c` is a letter or one of the digits `0` to `9`.
pub open spec fn is_letter_or_digit(c: char) -> bool {
    is_letter(c) || ('0' <= c && c <= '9')
}

/// Whether the text starts or ends with white space.
pub open spec fn untrimmed(text: Seq<char>) -> bool {
    text.len() > 0 && (is_space(text[0]) || is_space(text[text.len() - 1]))
}

/// The verdict on a user name: 3 to 20 characters, a letter first, then
/// letters, digits and underscores. Of several faults the first in the order
/// of `UsernameError` is named.
pub open spec fn username_verdict(name: Seq<char>) -> Result<(), UsernameError> {
    if name.len() == 0 {
        Err(UsernameError::Empty)
    } else if untrimmed(name) {
        Err(UsernameError::Untrimmed)
    } else if name.len() < 3 || name.len() > 20 {
        Err(UsernameError::Length)
    } else if !is_letter(name[0]) {
        Err(UsernameError::FirstNotLetter)
    } else if exists|i: int|
        #![trigger name[i]]
        1 <= i < name.len() && !(is_letter_or_digit(name[i]) || name[i] == '_') {
        Err(UsernameError::BadCharacter)
    } else {
        Ok(())
    }
}

/// The verdict on an order number: 1 to 64 letters, digits, hyphens and
/// underscores. Of several faults the first in the order of `OrderIdError` is named.
pub open spec fn order_id_verdict(order: Seq<char>) -> Result<(), OrderIdError> {
    if order.len() == 0 {
        Err(OrderIdError::Empty)
    } else if untrimmed(order) {
        Err(OrderIdError::Untrimmed)
    } else if order.len() > 64 {
        Err(OrderIdError::TooLong)
    } else if exists|i: int|
        #![trigger order[i]]
        0 <= i < order.len() && !(is_letter_or_digit(order[i]) || order[i] == '-' || order[i] == '_') {
        Err(OrderIdError::BadCharacter)
    } else {
        Ok(())
    }
}

fn space(c: char) -> (yes: bool)
    ensures
        yes == is_space(c),
{
    let code = c as u32;
    (0x09 <= code && code <= 0x0d) || code == 0x20 || code == 0x85 || code == 0xa0 || code == 0x1680 || (0x2000
        <= code && code <= 0x200a) || code == 0x2028 || code == 0x2029 || code == 0x202f || code == 0x205f || code
        == 0x3000
}

fn letter(c: char) -> (yes: bool)
    ensures
        yes == is_letter(c),
{
    ('A' <= c && c <= 'Z') || ('a' <= c && c <= 'z')
}

fn letter_or_digit(c: char) -> (yes: bool)
    ensures
        yes == is_letter_or_digit(c),
{
    letter(c) || ('0' <= c && c <= '9')
}

/// Checks a user name, given as its characters.
pub fn validate_username(username: &Vec<char>) -> (verdict: Result<(), UsernameError>)
    ensures
        verdict == username_verdict(username@),
{
    let len = username.len();
    if len == 0 {
        return Err(UsernameError::Empty);
    }
    if space(username[0]) || space(username[len - 1]) {
        return Err(UsernameError::Untrimmed);
    }
    if len < 3 || len > 20 {
        return Err(UsernameError::Length);
    }
    if !letter(username[0]) {
        return Err(UsernameError::FirstNotLetter);
    }
    let mut i: usize = 1;
    while i < len
        invariant
            1 <= i <= len,
            len == username@.len(),
            3 <= len <= 20,
            !untrimmed(username@),
            is_letter(username@[0]),
            forall|k: int| 1 <= k < i ==> is_letter_or_digit(#[trigger] username@[k]) || username@[k] == '_',
        decreases len - i,
    {
        let c = username[i];
        if !(letter_or_digit(c) || c == '_') {
            assert(!(is_letter_or_digit(username@[i as int]) || username@[i as int] == '_'));
            return Err(UsernameError::BadCharacter);
        }
        i = i + 1;
    }
    Ok(())
}

/// Checks an order number, given as its characters.
pub fn validate_order_id(order_id: &Vec<char>) -> (verdict: Result<(), OrderIdError>)
    ensures
        verdict == order_id_verdict(order_id@),
{
    let len = order_id.len();
    if len == 0 {
        return Err(OrderIdError::Empty);
    }
    if space(order_id[0]) || space(order_id[len - 1]) {
        return Err(OrderIdError::Untrimmed);
    }
    if len > 64 {
        return Err(OrderIdError::TooLong);
    }
    let mut i: usize = 0;
    while i < len
        invariant
            i <= len,
            len == order_id@.len(),
            0 < len <= 64,
            !untrimmed(order_id@),
            forall|k: int|
                0 <= k < i ==> is_letter_or_digit(#[trigger] order_id@[k]) || order_id@[k] == '-' || order_id@[k]
                    == '_',
        decreases len - i,
    {
        let c = order_id[i];
        if !(letter_or_digit(c) || c == '-' || c == '_') {
            assert(!(is_letter_or_digit(order_id@[i as int]) || order_id@[i as int] == '-' || order_id@[i as int]
                == '_'));
            return Err(OrderIdError::BadCharacter);
        }
        i = i + 1;
    }
    Ok(())
}

impl UsernameError {
    /// What the form tells the player.
    pub open spec fn text(self) -> Seq<char> {
        match self {
            UsernameError::Empty => "请输入用户名"@,
            UsernameError::Untrimmed => "用户名不能包含首尾空格"@,
            UsernameError::Length => "用户名长度需为 3-20 个字符"@,
            UsernameError::FirstNotLetter => "用户名必须以字母开头"@,
            UsernameError::BadCharacter => "用户名只能包含字母、数字和下划线"@,
        }
    }

    /// What the form tells the player.
    pub fn message(&self) -> (text: &'static str)
        ensures
            text@ == self.text(),
    {
        match self {
            UsernameError::Empty => "请输入用户名",
            UsernameError::Untrimmed => "用户名不能包含首尾空格",
            UsernameError::Length => "用户名长度需为 3-20 个字符",
            UsernameError::FirstNotLetter => "用户名必须以字母开头",
            UsernameError::BadCharacter => "用户名只能包含字母、数字和下划线",
        }
    }
}

impl OrderIdError {
    /// What the form tells the player.
    pub open spec fn text(self) -> Seq<char> {
        match self {
            OrderIdError::Empty => "请输入订单号"@,
            OrderIdError::Untrimmed => "订单号不能包含首尾空格"@,
            OrderIdError::TooLong => "订单号过长（最多 64 字符）"@,
            OrderIdError::BadCharacter => "订单号只能包含字母、数字、- 和 _"@,
        }
    }

    /// What the form tells the player.
    pub fn message(&self) -> (text: &'static str)
        ensures
            text@ == self.text(),
    {
        match self {
            OrderIdError::Empty => "请输入订单号",
            OrderIdError::Untrimmed => "订单号不能包含首尾空格",
            OrderIdError::TooLong => "订单号过长（最多 64 字符）",
            OrderIdError::BadCharacter => "订单号只能包含字母、数字、- 和 _",
        }
    }
}

/// What became of a submitted form.
#[derive(Clone, Copy, PartialEq, Eq, Structural, Debug)]
pub enum Submission {
    /// A request is under way already; the form is passed over.
    Busy,
    BadUsername(UsernameError),
    BadOrderId(OrderIdError),
    /// The form is in order; the request is to be sent.
    Accepted,
}

/// Decides what becomes of a submitted form: while a request is under way it
/// is passed over; else the user name is checked, then the order number.
pub fn process_recharge_event(is_processing: bool, username: &Vec<char>, order_id: &Vec<char>) -> (outcome: Submission)
    ensures
        outcome == if is_processing {
            Submission::Busy
        } else {
            match (username_verdict(username@), order_id_verdict(order_id@)) {
                (Err(e), _) => Submission::BadUsername(e),
                (Ok(_), Err(e)) => Submission::BadOrderId(e),
                (Ok(_), Ok(_)) => Submission::Accepted,
            }
        },
{
    if is_processing {
        return Submission::Busy;
    }
    match validate_username(username) {
        Err(e) => Submission::BadUsername(e),
        Ok(_) => match validate_order_id(order_id) {
            Err(e) => Submission::BadOrderId(e),
            Ok(_) => Submission::Accepted,
        },
    }
}

} // verus!
