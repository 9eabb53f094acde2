//! Reading stage changes: a fixed rule-based reading for each change of
//! stage, and, with a language model, the prompt sent for a change and the
//! description taken from the model's reply.
use vstd::prelude::*;
use crate::model::{ModelDispatcher, ModelRequest};
use crate::state_board::TaskStage;
use crate::text::{
    opt_text,
    chars_of, first_line, first_line_spec, owned, string_of, trim_chars, trim_spec, utf8_len,
    utf8_len_upto,
};

verus! {

/// The model asked by default.
pub const DEFAULT_MODEL: &'static str = "gemma4:e2b";

/// Text of the prompt after the target stage's name.
pub const TRANSITION_PROMPT_TAIL: &'static str = "]。\n\n請用繁體中文描述這個變化對系統和對使用者的具體意義。\n格式：一個描述句，10-25 字，說明發生了什麼及影響。\n例如：「系統規劃完成，準備啟動執行流程」\n例如：「任務遇到需要使用者決定的環節」\n例如：「系統執行中，後台正在處理多方資料同步」\n\n直接回覆描述句，不要加標題或前後文。";

/// The prompt that asks for a reading of task `name` moving from `from` to `to`.
pub open spec fn transition_prompt(name: Seq<char>, from: TaskStage, to: TaskStage) -> Seq<char> {
    "任務「"@ + name + "」的狀態從 ["@ + from.name() + "] 變成 ["@ + to.name() + TRANSITION_PROMPT_TAIL@
}

/// The description taken from a reply: the first line of the trimmed reply,
/// itself trimmed, where it is not empty and takes at least 5 bytes in UTF-8.
pub open spec fn describe_spec(content: Seq<char>) -> Option<Seq<char>> {
    match first_line_spec(trim_spec(content)) {
        Some(l) => {
            let t = trim_spec(l);
            if t.len() > 0 && utf8_len(t) >= 5 {
                Some(t)
            } else {
                None
            }
        },
        None => None,
    }
}

/// `d` is what some reply describes.
pub open spec fn is_description(d: Seq<char>) -> bool {
    exists|content: Seq<char>| describe_spec(content) == Some(d)
}

/// The description in a model's reply `content`, if it holds one.
pub fn describe_reply(content: &str) -> (r: Option<String>)
    ensures
        match r {
            Some(d) => describe_spec(content@) == Some(d@),
            None => describe_spec(content@) is None,
        },
{
    let c = chars_of(content);
    let t = trim_chars(c.as_slice());
    match first_line(t.as_slice()) {
        Some(l) => {
            let d = trim_chars(l.as_slice());
            if d.len() > 0 && utf8_len_upto(d.as_slice(), 5) >= 5 {
                Some(string_of(d.as_slice()))
            } else {
                None
            }
        },
        None => None,
    }
}

/// The reading taken from a model's reply, or nothing where the model
/// failed or its reply holds no description.
pub open spec fn interpretation_of(reply: Result<Seq<char>, Seq<char>>) -> Option<Seq<char>> {
    match reply {
        Ok(content) => describe_spec(content),
        Err(_) => None,
    }
}

/// The rule-based reading of a change of stage from `from` to `to`, given
/// when no model is asked.
pub open spec fn rule_description(from: TaskStage, to: TaskStage) -> Seq<char> {
    match to {
        TaskStage::Pending => "任務回到待處理，等待重新安排"@,
        TaskStage::Planning => "系統開始分析任務，正在規劃執行步驟"@,
        TaskStage::Executing => if from == TaskStage::Planning {
            "系統規劃完成，正在啟動規劃執行流程"@
        } else {
            "任務開始執行，系統正在處理"@
        },
        TaskStage::Done => "任務已完成，成果可供檢視"@,
        TaskStage::Blocked => "任務遇到需要使用者決定的環節"@,
    }
}

/// The rule-based reading of a change of stage from `from` to `to`.
pub fn rule_text(from: &TaskStage, to: &TaskStage) -> (s: &'static str)
    ensures
        s@ == rule_description(*from, *to),
{
    match to {
        TaskStage::Pending => "任務回到待處理，等待重新安排",
        TaskStage::Planning => "系統開始分析任務，正在規劃執行步驟",
        TaskStage::Executing => match from {
            TaskStage::Planning => "系統規劃完成，正在啟動規劃執行流程",
            _ => "任務開始執行，系統正在處理",
        },
        TaskStage::Done => "任務已完成，成果可供檢視",
        TaskStage::Blocked => "任務遇到需要使用者決定的環節",
    }
}

/// Asks a model to read changes of stage.
pub struct EventGenerator {
    default_model: String,
}

impl EventGenerator {
    /// The model this generator asks.
    pub closed spec fn model(self) -> Seq<char> {
        self.default_model@
    }

    /// A generator that asks the default model.
    pub fn new() -> (g: EventGenerator)
        ensures
            g.model() == DEFAULT_MODEL@,
    {
        EventGenerator { default_model: owned(DEFAULT_MODEL) }
    }

    /// The model this generator asks.
    pub fn default_model(&self) -> (m: &str)
        ensures
            m@ == self.model(),
    {
        self.default_model.as_str()
    }

    /// The prompt for task `task_name` moving from `from` to `to`.
    pub fn build_prompt(task_name: &str, from: &TaskStage, to: &TaskStage) -> (p: String)
        ensures
            p@ == transition_prompt(task_name@, *from, *to),
    {
        let mut p = owned("任務「");
        p.append(task_name);
        p.append("」的狀態從 [");
        p.append(from.as_str());
        p.append("] 變成 [");
        p.append(to.as_str());
        p.append(TRANSITION_PROMPT_TAIL);
        p
    }

    /// The request sent to `model` for a change of stage: the prompt above,
    /// temperature 0.3, at most 120 tokens.
    pub fn transition_request(model: &str, task_name: &str, from: &TaskStage, to: &TaskStage) -> (r:
        ModelRequest)
        ensures
            r.model@ == model@,
            r.prompt@ == transition_prompt(task_name@, *from, *to),
            r.system_prompt is None,
            r.temperature_pct == 30,
            r.max_tokens == Some(120u32),
    {
        let prompt = Self::build_prompt(task_name, from, to);
        ModelRequest::new(model, prompt.as_str()).with_temperature_pct(30).with_max_tokens(120)
    }

    /// The reading of task `task_name` moving from `from` to `to`: without a
    /// backend, the rule-based reading; with one, the model's reading, or
    /// `None` when the backend fails or its reply holds no description.
    pub fn interpret_transition(
        &self,
        task_name: &str,
        from_stage: &TaskStage,
        to_stage: &TaskStage,
        backend: Option<&dyn ModelDispatcher>,
    ) -> (r: Option<String>)
        ensures
            backend is None ==> opt_text(r) == Some(rule_description(*from_stage, *to_stage)),
            backend is Some ==> exists|reply: Result<Seq<char>, Seq<char>>|
                opt_text(r) == #[trigger] interpretation_of(reply),
            backend is Some ==> (r matches Some(d) ==> is_description(d@)),
    {
        match backend {
            Some(b) => self.interpret_transition_with_model(
                task_name,
                from_stage,
                to_stage,
                b,
                self.default_model.as_str(),
            ),
            None => Some(owned(rule_text(from_stage, to_stage))),
        }
    }

    /// As `interpret_transition`, asking `model`.
    pub fn interpret_transition_with_model(
        &self,
        task_name: &str,
        from_stage: &TaskStage,
        to_stage: &TaskStage,
        backend: &dyn ModelDispatcher,
        model: &str,
    ) -> (r: Option<String>)
        ensures
            exists|reply: Result<Seq<char>, Seq<char>>|
                opt_text(r) == #[trigger] interpretation_of(reply),
            r matches Some(d) ==> is_description(d@),
    {
        let req = Self::transition_request(model, task_name, from_stage, to_stage);
        match backend.dispatch(req) {
            Ok(resp) => {
                let r = describe_reply(resp.content.as_str());
                proof {
                    if r is Some {
                        assert(describe_spec(resp.content@) == Some(r->0@));
                    }
                    assert(opt_text(r) == interpretation_of(Ok(resp.content@)));
                }
                r
            },
            Err(e) => {
                assert(opt_text(None) == interpretation_of(Err(e@)));
                None
            },
        }
    }
}

impl Default for EventGenerator {
    fn default() -> (g: EventGenerator)
        ensures
            g.model() == DEFAULT_MODEL@,
    {
        EventGenerator::new()
    }
}

} // verus!
