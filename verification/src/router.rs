//! Command router: maps the leading token of a message to one of the
//! recognized slash commands, and holds the static reply texts of the
//! commands that need no further work.

use vstd::prelude::*;
use crate::text::word_len;
use crate::text::is_ws;
use crate::text::is_ws_char;
use crate::text::lemma_word_len_of_run;

verus! {

/// The commands the bot answers.
#[derive(Clone, Copy, PartialEq, Eq, Structural, Debug)]
pub enum Command {
    Start,
    Help,
    Roll,
    Title,
    UnTitle,
    Dinner,
}

/// The leading command token: the maximal non-whitespace prefix of the
/// message text (empty when the text starts with whitespace or is empty).
pub open spec fn leading_token(s: Seq<char>) -> Seq<char> {
    s.take(word_len(s))
}

/// Which command, if any, the message text invokes. Unrecognized text maps
/// to no handler at all.
pub open spec fn command_of(s: Seq<char>) -> Option<Command> {
    let t = leading_token(s);
    if t == "/start"@ {
        Some(Command::Start)
    } else if t == "/help"@ {
        Some(Command::Help)
    } else if t == "/roll"@ {
        Some(Command::Roll)
    } else if t == "/title"@ {
        Some(Command::Title)
    } else if t == "/untitle"@ {
        Some(Command::UnTitle)
    } else if t == "/dinner"@ {
        Some(Command::Dinner)
    } else {
        None
    }
}

/// The leading command token as an owned string.
fn leading_token_string(text: &str) -> (tok: String)
    ensures
        tok@ == leading_token(text@),
{
    let n = text.unicode_len();
    if n == 0 || is_ws_char(text.get_char(0)) {
        proof {
            assert(text@.take(0) =~= Seq::<char>::empty());
        }
        String::new()
    } else {
        let mut j: usize = 0;
        while j < n && !is_ws_char(text.get_char(j))
            invariant
                j <= n,
                n == text@.len(),
                forall|m: int| 0 <= m < j ==> !is_ws(text@[m]),
            decreases n - j,
        {
            j = j + 1;
        }
        proof {
            lemma_word_len_of_run(text@, j as int);
        }
        text.substring_char(0, j).to_owned()
    }
}

/// Parses the leading token of `text` into a recognized command.
pub fn parse_command(text: &str) -> (r: Option<Command>)
    ensures
        r == command_of(text@),
{
    let tok = leading_token_string(text);
    if tok == String::from_str("/start") {
        Some(Command::Start)
    } else if tok == String::from_str("/help") {
        Some(Command::Help)
    } else if tok == String::from_str("/roll") {
        Some(Command::Roll)
    } else if tok == String::from_str("/title") {
        Some(Command::Title)
    } else if tok == String::from_str("/untitle") {
        Some(Command::UnTitle)
    } else if tok == String::from_str("/dinner") {
        Some(Command::Dinner)
    } else {
        None
    }
}

/// Static help text answered to the help and start commands.
pub open spec fn help_text_spec() -> Seq<char> {
    "\n\\#歡迎光臨洗手室\n/help \\- 檢視說明\n/roll \\- 擲骰子\n/title *@user* *string*  \\- 變更使用者標籤\n/untitle *@user* \\- 移除使用者標籤\n/dinner *options\\.\\.\\.* \\- 晚餐吃什麼\n    e\\.g\\. `/dinner 八方雲集 Sukiya 臺鐵便當 元氣`\n"@
}

/// The help text as an owned string.
pub fn help_text() -> (r: String)
    ensures
        r@ == help_text_spec(),
{
    String::from_str(
        "\n\\#歡迎光臨洗手室\n/help \\- 檢視說明\n/roll \\- 擲骰子\n/title *@user* *string*  \\- 變更使用者標籤\n/untitle *@user* \\- 移除使用者標籤\n/dinner *options\\.\\.\\.* \\- 晚餐吃什麼\n    e\\.g\\. `/dinner 八方雲集 Sukiya 臺鐵便當 元氣`\n",
    )
}

/// Usage reply for a title command whose mention or title could not be
/// worked out.
pub open spec fn title_usage_text() -> Seq<char> {
    "指令解析失敗，請輸入選項 e.g. /title @user string"@
}

/// Usage reply for an untitle command whose mention could not be worked out.
pub open spec fn untitle_usage_text() -> Seq<char> {
    "指令解析失敗，請輸入選項 e.g. /untitle @user"@
}

/// The usage reply answered when mention extraction or resolution fails:
/// one fixed text per command.
pub fn extraction_failure_reply(clear: bool) -> (r: String)
    ensures
        clear ==> r@ == untitle_usage_text(),
        !clear ==> r@ == title_usage_text(),
{
    if clear {
        String::from_str("指令解析失敗，請輸入選項 e.g. /untitle @user")
    } else {
        String::from_str("指令解析失敗，請輸入選項 e.g. /title @user string")
    }
}

} // verus!
