//! The connection to a model: the account, the models that it may use, and the commands that
//! change the settings.
use vstd::prelude::*;
use vstd::string::*;

use crate::text;

verus! {

#[derive(Clone, Copy, Debug, PartialEq, Eq, Structural)]
pub enum Provider {
    Chatgpt,
    Api,
}

#[derive(Clone, Copy, Debug, PartialEq, Eq, Structural)]
pub enum ReplyMode {
    Suggest,
    Approve,
    Auto,
    Paused,
}

/// The account of a subscription.
#[derive(Debug)]
pub struct Account {
    pub signed_in: bool,
    pub plan: Option<String>,
    pub quota: String,
}

/// A model that the account may use.
#[derive(Debug)]
pub struct Model {
    pub model: String,
    pub display_name: String,
    pub efforts: Vec<String>,
    pub default_effort: String,
}

impl Model {
    /// The model thinks as hard as asked.
    pub open spec fn supports(self, effort: Seq<char>) -> bool {
        exists|i: int| 0 <= i < self.efforts@.len() && (#[trigger] self.efforts@[i])@ == effort
    }

    pub fn validate_effort(&self, effort: &str) -> (r: bool)
        ensures
            r == self.supports(effort@),
    {
        let mut i: usize = 0;
        while i < self.efforts.len()
            invariant
                i <= self.efforts@.len(),
                forall|k: int| 0 <= k < i ==> (#[trigger] self.efforts@[k])@ != effort@,
            decreases self.efforts@.len() - i,
        {
            if text::same(self.efforts[i].as_str(), effort) {
                return true;
            }
            i = i + 1;
        }
        false
    }
}

/// A model behind an interface of its own.
#[derive(Debug)]
pub struct ApiModel {
    pub id: String,
    /// The address is one that may be used.
    pub url_valid: bool,
    pub key_env: String,
    /// The variable of that name holds something.
    pub key_present: bool,
}

/// The settings of the connection.
#[derive(Debug)]
pub struct Connection {
    pub provider: Provider,
    pub enabled: bool,
    pub mode: ReplyMode,
    pub model: Option<String>,
    pub effort: Option<String>,
    pub api: Option<ApiModel>,
}

/// What is known of the account and of its models.
#[derive(Debug)]
pub struct Settings {
    pub open: bool,
    pub status: String,
    pub account: Account,
    pub models: Vec<Model>,
    pub checked: bool,
    pub busy: bool,
    pub epoch: u64,
    pub url: Option<String>,
}

/// News of an operation of the connection.
#[derive(Debug)]
pub enum ConnectionEvent {
    Url { epoch: u64, url: String },
    Finished { epoch: u64, result: Result<(Account, Vec<Model>), String> },
}

/// The place of a model among those of the account.
pub open spec fn model_place(models: Seq<Model>, name: Seq<char>) -> Option<int>
    decreases models.len(),
{
    if models.len() == 0 {
        None
    } else if models[0].model@ == name {
        Some(0)
    } else {
        match model_place(models.skip(1), name) {
            Some(i) => Some(i + 1),
            None => None,
        }
    }
}

fn find_model(models: &Vec<Model>, name: &str) -> (r: Option<usize>)
    ensures
        match model_place(models@, name@) {
            Some(i) => r matches Some(at) && at == i && at < models@.len(),
            None => r is None,
        },
{
    let mut i: usize = 0;
    proof {
        assert(models@.skip(0) =~= models@);
    }
    while i < models.len()
        invariant
            i <= models@.len(),
            match model_place(models@.skip(i as int), name@) {
                Some(k) => model_place(models@, name@) == Some(k + i),
                None => model_place(models@, name@) is None,
            },
        decreases models@.len() - i,
    {
        proof {
            assert(models@.skip(i as int).skip(1) =~= models@.skip(i + 1));
        }
        if text::same(models[i].model.as_str(), name) {
            return Some(i);
        }
        i = i + 1;
    }
    None
}

/// The effort that is set, or none.
pub open spec fn effort_of(config: Connection) -> Seq<char> {
    match config.effort {
        Some(effort) => effort@,
        None => ""@,
    }
}

/// The model that is set is one of the account's.
pub open spec fn chosen(settings: Settings, config: Connection) -> Option<int> {
    match config.model {
        Some(model) => model_place(settings.models@, model@),
        None => None,
    }
}

/// The interface can be used: its address, and a key in a variable of the program's own.
pub open spec fn api_usable(api: ApiModel) -> bool {
    api.url_valid && text::has_prefix(api.key_env@, "DANMU_"@) && api.key_present
}

/// The model is the one that is set, and thinks as hard as is set.
pub open spec fn serves(model: Model, config: Connection) -> bool {
    text::opt_view(config.model) == Some(model.model@) && model.supports(effort_of(config))
}

fn model_serves(model: &Model, config: &Connection) -> (r: bool)
    ensures
        r == serves(*model, *config),
{
    match &config.model {
        Some(name) => text::same(name.as_str(), model.model.as_str()) && model.validate_effort(
            set_effort(config),
        ),
        None => false,
    }
}

/// The place that is found for a name holds a model of that name.
proof fn lemma_model_place(models: Seq<Model>, name: Seq<char>)
    ensures
        model_place(models, name) matches Some(i) ==> 0 <= i < models.len() && models[i].model@
            == name,
    decreases models.len(),
{
    if models.len() > 0 && models[0].model@ != name {
        lemma_model_place(models.skip(1), name);
    }
}

/// Replies can be asked for.
pub open spec fn is_ready(settings: Settings, config: Connection) -> bool {
    match config.provider {
        Provider::Chatgpt => settings.account.signed_in && exists|i: int|
            0 <= i < settings.models@.len() && serves(#[trigger] settings.models@[i], config),
        Provider::Api => config.api matches Some(api) && text::trimmed(api.id@).len() > 0
            && api_usable(api),
    }
}

/// Why a command changes nothing.
#[derive(Clone, Copy, Debug, PartialEq, Eq, Structural)]
pub enum AiProblem {
    Provider,
    ModelId,
    ModelUnlisted,
    NoApi,
    EffortUnsupported,
    EffortNotOffered,
    ModelNotChosen,
    NotSignedIn,
    NoModel,
    ApiMissing,
    ApiAddress,
    ApiKey,
    Usage,
}

/// The text of a problem. What is wrong with an effort or an address, the model's or the address's
/// own check says.
pub open spec fn ai_problem_text(problem: AiProblem) -> Option<Seq<char>> {
    match problem {
        AiProblem::Provider => Some("provider须为chatgpt或api"@),
        AiProblem::ModelId => Some("模型ID无效"@),
        AiProblem::ModelUnlisted => Some("模型不在账号可用列表中；先/ai models"@),
        AiProblem::NoApi => Some("请先配置API endpoint与DANMU_凭据变量"@),
        AiProblem::EffortUnsupported => None,
        AiProblem::EffortNotOffered => Some("此API适配器未声明思考强度支持，不假装应用设置"@),
        AiProblem::ModelNotChosen => Some("先刷新账号模型并选择模型"@),
        AiProblem::NotSignedIn => Some("先/ai login或/ai status确认应用账号"@),
        AiProblem::NoModel => Some("先选择账号可用模型"@),
        AiProblem::ApiMissing => Some("API模型尚未配置"@),
        AiProblem::ApiAddress => None,
        AiProblem::ApiKey => Some("缺少专用API凭据环境变量"@),
        AiProblem::Usage => Some(
            "/ai settings；login/status/models；provider chatgpt|api；model ID；effort VALUE；enable|disable；suggest|approve-mode|auto"@,
        ),
    }
}

impl AiProblem {
    pub fn message(self) -> (r: Option<&'static str>)
        ensures
            match r {
                Some(message) => Some(message@),
                None => None,
            } == ai_problem_text(self),
    {
        match self {
            AiProblem::Provider => Some("provider须为chatgpt或api"),
            AiProblem::ModelId => Some("模型ID无效"),
            AiProblem::ModelUnlisted => Some("模型不在账号可用列表中；先/ai models"),
            AiProblem::NoApi => Some("请先配置API endpoint与DANMU_凭据变量"),
            AiProblem::EffortUnsupported => None,
            AiProblem::EffortNotOffered => Some(
                "此API适配器未声明思考强度支持，不假装应用设置",
            ),
            AiProblem::ModelNotChosen => Some("先刷新账号模型并选择模型"),
            AiProblem::NotSignedIn => Some("先/ai login或/ai status确认应用账号"),
            AiProblem::NoModel => Some("先选择账号可用模型"),
            AiProblem::ApiMissing => Some("API模型尚未配置"),
            AiProblem::ApiAddress => None,
            AiProblem::ApiKey => Some("缺少专用API凭据环境变量"),
            AiProblem::Usage => Some(
                "/ai settings；login/status/models；provider chatgpt|api；model ID；effort VALUE；enable|disable；suggest|approve-mode|auto",
            ),
        }
    }
}

/// What a command asks for.
#[derive(Debug)]
pub enum AiAction {
    TogglePanel,
    ToggleSettings,
    /// An operation of the connection.
    Connect { action: String },
    /// The connection is signed out of, once it has been saved as switched off.
    LogOut,
    CancelLogin,
    Approve,
    Discard,
    /// The changed settings are to be saved.
    Save,
    /// The settings are to be saved, and sending goes on or stops.
    SaveAndQueue { running: bool },
}

pub ghost enum AiView {
    TogglePanel,
    ToggleSettings,
    Connect { action: Seq<char> },
    LogOut,
    CancelLogin,
    Approve,
    Discard,
    Save,
    SaveAndQueue { running: bool },
}

impl View for AiAction {
    type V = AiView;

    open spec fn view(&self) -> AiView {
        match *self {
            AiAction::TogglePanel => AiView::TogglePanel,
            AiAction::ToggleSettings => AiView::ToggleSettings,
            AiAction::Connect { action } => AiView::Connect { action: action@ },
            AiAction::LogOut => AiView::LogOut,
            AiAction::CancelLogin => AiView::CancelLogin,
            AiAction::Approve => AiView::Approve,
            AiAction::Discard => AiView::Discard,
            AiAction::Save => AiView::Save,
            AiAction::SaveAndQueue { running } => AiView::SaveAndQueue { running },
        }
    }
}

/// A command changes the connection: replies that wait are dropped at once, before the change is
/// saved and whatever comes of that.
pub open spec fn drops_waiting(action: AiView) -> bool {
    action is Save || action is SaveAndQueue || action is LogOut
}

impl AiAction {
    /// Whether the replies that wait are to be dropped now, before anything is saved: they were
    /// made for a connection that is about to change, and stay dropped where the save fails.
    pub fn drops_replies(&self) -> (r: bool)
        ensures
            r == drops_waiting(self@),
    {
        matches!(self, AiAction::Save | AiAction::SaveAndQueue { .. } | AiAction::LogOut)
    }
}

/// No reply that was made for one connection is left when another is put to use: a command that
/// changes the draft drops the replies that wait, before it can be saved.
pub proof fn law_changes_drop_waiting_replies(
    before_settings: Settings,
    after_settings: Settings,
    before: Connection,
    after: Connection,
    args: Seq<Seq<char>>,
    safe: bool,
    r: Result<AiView, AiProblem>,
)
    requires
        ai_commanded(before_settings, after_settings, before, after, args, safe, r),
        after != before,
    ensures
        r is Ok && drops_waiting(r->Ok_0),
{
}

/// An operation that is begun at once.
pub open spec fn is_operation(word: Seq<char>) -> bool {
    word == "login"@ || word == "models"@ || word == "status"@
}

/// The longest name of a model, in bytes.
pub const MODEL_BYTES: usize = 200;

/// A command of one word.
pub open spec fn word_result(
    settings: Settings,
    before: Connection,
    after: Connection,
    word: Seq<char>,
    r: Result<AiView, AiProblem>,
) -> bool {
    if word == "settings"@ {
        r == Ok::<AiView, AiProblem>(AiView::ToggleSettings) && after == before
    } else if is_operation(word) {
        r == Ok::<AiView, AiProblem>(AiView::Connect { action: word }) && after == before
    } else if word == "logout"@ {
        r == Ok::<AiView, AiProblem>(AiView::LogOut) && after == (Connection {
            enabled: false,
            ..before
        })
    } else if word == "cancel-login"@ {
        r == Ok::<AiView, AiProblem>(AiView::CancelLogin) && after == before
    } else if word == "enable"@ {
        match enable_problem(settings, before) {
            Some(problem) => r == Err::<AiView, AiProblem>(problem) && after == before,
            None => r == Ok::<AiView, AiProblem>(AiView::Save) && after == (Connection {
                enabled: true,
                ..before
            }),
        }
    } else if word == "disable"@ {
        r == Ok::<AiView, AiProblem>(AiView::Save) && after == (Connection {
            enabled: false,
            ..before
        })
    } else if word == "suggest"@ || word == "approve-mode"@ || word == "auto"@ {
        r == Ok::<AiView, AiProblem>(AiView::Save) && after == (Connection {
            mode: if word == "suggest"@ {
                ReplyMode::Suggest
            } else if word == "auto"@ {
                ReplyMode::Auto
            } else {
                ReplyMode::Approve
            },
            ..before
        })
    } else if word == "pause"@ || word == "resume-send"@ {
        let running = word == "resume-send"@;
        r == Ok::<AiView, AiProblem>(AiView::SaveAndQueue { running }) && after == (Connection {
            mode: if running {
                ReplyMode::Suggest
            } else {
                ReplyMode::Paused
            },
            ..before
        })
    } else if word == "approve"@ {
        r == Ok::<AiView, AiProblem>(AiView::Approve) && after == before
    } else if word == "discard"@ {
        r == Ok::<AiView, AiProblem>(AiView::Discard) && after == before
    } else {
        r == Err::<AiView, AiProblem>(AiProblem::Usage) && after == before
    }
}

/// What stands against switching the connection on.
pub open spec fn enable_problem(settings: Settings, config: Connection) -> Option<AiProblem> {
    match config.provider {
        Provider::Chatgpt => if !settings.account.signed_in {
            Some(AiProblem::NotSignedIn)
        } else if chosen(settings, config) is None {
            Some(AiProblem::NoModel)
        } else if !settings.models@[chosen(settings, config)->0].supports(effort_of(config)) {
            Some(AiProblem::EffortUnsupported)
        } else {
            None
        },
        Provider::Api => match config.api {
            None => Some(AiProblem::ApiMissing),
            Some(api) => if !api.url_valid {
                Some(AiProblem::ApiAddress)
            } else if !(text::has_prefix(api.key_env@, "DANMU_"@) && api.key_present) {
                Some(AiProblem::ApiKey)
            } else {
                None
            },
        },
    }
}

/// A connection that can be switched on is one that replies can be asked of, apart from the name of
/// a model behind an interface of its own.
pub proof fn law_what_is_enabled_is_ready(settings: Settings, config: Connection)
    requires
        enable_problem(settings, config) is None,
        config.provider == Provider::Chatgpt || text::trimmed(config.api->0.id@).len() > 0,
    ensures
        is_ready(settings, config),
{
    if config.provider == Provider::Chatgpt {
        lemma_model_place(settings.models@, config.model->0@);
        assert(serves(settings.models@[chosen(settings, config)->0], config));
    }
}

/// Choosing a model.
pub open spec fn model_result(
    settings: Settings,
    before: Connection,
    after: Connection,
    name: Seq<char>,
    safe: bool,
    r: Result<AiView, AiProblem>,
) -> bool {
    if !(safe && vstd::utf8::encode_utf8(name).len() <= MODEL_BYTES) {
        r == Err::<AiView, AiProblem>(AiProblem::ModelId) && after == before
    } else {
        match before.provider {
            Provider::Chatgpt => match model_place(settings.models@, name) {
                None => r == Err::<AiView, AiProblem>(AiProblem::ModelUnlisted) && after == before,
                Some(i) => {
                    let model = settings.models@[i];
                    let keeps = before.effort is Some && model.supports(before.effort->0@);
                    if !keeps && !model.supports(model.default_effort@) {
                        r == Err::<AiView, AiProblem>(AiProblem::EffortUnsupported) && after
                            == before
                    } else {
                        &&& r == Ok::<AiView, AiProblem>(AiView::Save)
                        &&& after == (Connection {
                            model: after.model,
                            effort: if keeps {
                                before.effort
                            } else {
                                Some(model.default_effort)
                            },
                            ..before
                        })
                        &&& text::opt_view(after.model) == Some(name)
                    }
                },
            },
            Provider::Api => match before.api {
                None => r == Err::<AiView, AiProblem>(AiProblem::NoApi) && after == before,
                Some(api) => {
                    &&& r == Ok::<AiView, AiProblem>(AiView::Save)
                    &&& after == (Connection { api: after.api, ..before })
                    &&& after.api matches Some(changed) && changed == (ApiModel {
                        id: changed.id,
                        ..api
                    }) && changed.id@ == name
                },
            },
        }
    }
}

/// Setting how hard a model thinks.
pub open spec fn effort_result(
    settings: Settings,
    before: Connection,
    after: Connection,
    effort: Seq<char>,
    r: Result<AiView, AiProblem>,
) -> bool {
    if before.provider != Provider::Chatgpt {
        r == Err::<AiView, AiProblem>(AiProblem::EffortNotOffered) && after == before
    } else if chosen(settings, before) is None {
        r == Err::<AiView, AiProblem>(AiProblem::ModelNotChosen) && after == before
    } else if !settings.models@[chosen(settings, before)->0].supports(effort) {
        r == Err::<AiView, AiProblem>(AiProblem::EffortUnsupported) && after == before
    } else {
        &&& r == Ok::<AiView, AiProblem>(AiView::Save)
        &&& after == (Connection { effort: after.effort, ..before })
        &&& text::opt_view(after.effort) == Some(effort)
    }
}

/// A command of two words.
pub open spec fn pair_result(
    before_settings: Settings,
    after_settings: Settings,
    before: Connection,
    after: Connection,
    word: Seq<char>,
    value: Seq<char>,
    safe: bool,
    r: Result<AiView, AiProblem>,
) -> bool {
    if word == "provider"@ {
        if value == "chatgpt"@ || value == "api"@ {
            &&& r == Ok::<AiView, AiProblem>(AiView::Save)
            &&& after == (Connection {
                provider: if value == "api"@ {
                    Provider::Api
                } else {
                    Provider::Chatgpt
                },
                enabled: false,
                ..before
            })
            &&& after_settings == (Settings { checked: false, ..before_settings })
        } else {
            r == Err::<AiView, AiProblem>(AiProblem::Provider) && after == before
                && after_settings == before_settings
        }
    } else {
        &&& after_settings == before_settings
        &&& if word == "model"@ {
            model_result(before_settings, before, after, value, safe, r)
        } else if word == "effort"@ {
            effort_result(before_settings, before, after, value, r)
        } else {
            r == Err::<AiView, AiProblem>(AiProblem::Usage) && after == before
        }
    }
}

/// A command with its words.
pub open spec fn ai_commanded(
    before_settings: Settings,
    after_settings: Settings,
    before: Connection,
    after: Connection,
    args: Seq<Seq<char>>,
    safe: bool,
    r: Result<AiView, AiProblem>,
) -> bool {
    if args.len() == 0 {
        &&& r == Ok::<AiView, AiProblem>(AiView::TogglePanel)
        &&& after == before
        &&& after_settings == before_settings
    } else if args.len() == 1 {
        &&& word_result(before_settings, before, after, args[0], r)
        &&& after_settings == if args[0] == "settings"@ {
            Settings { open: !before_settings.open, ..before_settings }
        } else if is_operation(args[0]) {
            Settings { open: true, ..before_settings }
        } else {
            before_settings
        }
    } else if args.len() == 2 {
        pair_result(
            before_settings,
            after_settings,
            before,
            after,
            args[0],
            args[1],
            safe,
            r,
        )
    } else {
        r == Err::<AiView, AiProblem>(AiProblem::Usage) && after == before && after_settings
            == before_settings
    }
}

/// Switching to another provider never leaves the connection on: it has to be switched on again.
pub proof fn law_switching_disables(
    before_settings: Settings,
    after_settings: Settings,
    before: Connection,
    after: Connection,
    args: Seq<Seq<char>>,
    safe: bool,
    r: Result<AiView, AiProblem>,
)
    requires
        ai_commanded(before_settings, after_settings, before, after, args, safe, r),
        after.provider != before.provider,
    ensures
        !after.enabled,
{
}

/// The connection is switched on only by the command for that, and only where nothing stands
/// against it.
pub proof fn law_only_enable_enables(
    before_settings: Settings,
    after_settings: Settings,
    before: Connection,
    after: Connection,
    args: Seq<Seq<char>>,
    safe: bool,
    r: Result<AiView, AiProblem>,
)
    requires
        ai_commanded(before_settings, after_settings, before, after, args, safe, r),
        !before.enabled,
        after.enabled,
    ensures
        args.len() == 1 && args[0] == "enable"@,
        enable_problem(before_settings, before) is None,
{
}

/// The settings after news of an operation. News of an operation that was given up is passed over.
pub open spec fn applied(before: Settings, after: Settings, event: ConnectionEvent, r: bool) -> bool {
    match event {
        ConnectionEvent::Url { epoch, url } => {
            &&& !r
            &&& if epoch == before.epoch {
                &&& after == (Settings { url: Some(url), status: after.status, ..before })
                &&& after.status@ == "等待浏览器完成官方登录；/ai cancel-login 取消（180秒）"@
            } else {
                after == before
            }
        },
        ConnectionEvent::Finished { epoch, result } => if epoch != before.epoch {
            !r && after == before
        } else {
            match result {
                Ok((account, models)) => {
                    &&& r == !account.signed_in
                    &&& after == (Settings {
                        busy: false,
                        url: None,
                        account,
                        models,
                        status: after.status,
                        ..before
                    })
                    &&& after.status@ == if account.signed_in {
                        "ChatGPT账号已确认；模型列表已刷新，真实推理尚需人工验证"@
                    } else {
                        "未登录ChatGPT订阅；/ai login 发起应用独立登录"@
                    }
                },
                Err(error) => {
                    &&& r
                    &&& after == (Settings {
                        busy: false,
                        url: None,
                        account: after.account,
                        models: after.models,
                        status: error,
                        ..before
                    })
                    &&& after.models@.len() == 0
                    &&& !after.account.signed_in
                    &&& after.account.plan is None
                    &&& after.account.quota@.len() == 0
                },
            }
        },
    }
}

/// The settings after an operation was asked for, and the number by which its news is known; none
/// where another one is under way.
pub open spec fn started(
    before: Settings,
    after: Settings,
    action: Seq<char>,
    number: Option<u64>,
) -> bool {
    if before.busy {
        &&& number is None
        &&& after == (Settings { status: after.status, ..before })
        &&& after.status@ == "连接操作进行中；/ai cancel-login 取消后再操作"@
    } else {
        &&& number == Some((before.epoch + 1) as u64)
        &&& after == (Settings {
            busy: true,
            checked: true,
            epoch: (before.epoch + 1) as u64,
            url: None,
            status: after.status,
            ..before
        })
        &&& after.status@ == "订阅连接："@ + action + "…；不会发起推理"@
    }
}

impl Settings {
    /// Whether replies can be asked for.
    pub fn ready(&self, config: &Connection) -> (r: bool)
        ensures
            r == is_ready(*self, *config),
    {
        match config.provider {
            Provider::Chatgpt => {
                if !self.account.signed_in {
                    return false;
                }
                let mut i: usize = 0;
                while i < self.models.len()
                    invariant
                        config.provider == Provider::Chatgpt,
                        self.account.signed_in,
                        i <= self.models@.len(),
                        forall|k: int| 0 <= k < i ==> !serves(#[trigger] self.models@[k], *config),
                    decreases self.models@.len() - i,
                {
                    if model_serves(&self.models[i], config) {
                        return true;
                    }
                    i = i + 1;
                }
                false
            },
            Provider::Api => match &config.api {
                Some(api) => !text::trim(api.id.as_str()).as_str().is_empty() && api.url_valid
                    && text::starts_with(api.key_env.as_str(), "DANMU_") && api.key_present,
                None => false,
            },
        }
    }

    fn chosen_at(&self, config: &Connection) -> (r: Option<usize>)
        ensures
            match chosen(*self, *config) {
                Some(i) => r matches Some(at) && at == i && at < self.models@.len(),
                None => r is None,
            },
    {
        match &config.model {
            Some(model) => find_model(&self.models, model.as_str()),
            None => None,
        }
    }

    /// Begins an operation, unless another one is under way. The answer is the number by which its
    /// news is known.
    pub fn start(&mut self, action: &str) -> (r: Option<u64>)
        requires
            old(self).epoch < u64::MAX,
        ensures
            started(*old(self), *final(self), action@, r),
    {
        if self.busy {
            self.status = "连接操作进行中；/ai cancel-login 取消后再操作".to_owned();
            return None;
        }
        self.busy = true;
        self.checked = true;
        self.epoch = self.epoch + 1;
        self.url = None;
        self.status = text::add3("订阅连接：", action, "…；不会发起推理");
        Some(self.epoch)
    }

    /// Takes news of an operation. The answer says that nobody is signed in any more.
    pub fn apply(&mut self, event: ConnectionEvent) -> (r: bool)
        ensures
            applied(*old(self), *final(self), event, r),
    {
        match event {
            ConnectionEvent::Url { epoch, url } => {
                if epoch == self.epoch {
                    self.url = Some(url);
                    self.status =
                    "等待浏览器完成官方登录；/ai cancel-login 取消（180秒）".to_owned();
                }
                false
            },
            ConnectionEvent::Finished { epoch, result } => {
                if epoch != self.epoch {
                    return false;
                }
                self.busy = false;
                self.url = None;
                match result {
                    Ok((account, models)) => {
                        self.account = account;
                        self.models = models;
                        self.status = if self.account.signed_in {
                            "ChatGPT账号已确认；模型列表已刷新，真实推理尚需人工验证".to_owned()
                        } else {
                            "未登录ChatGPT订阅；/ai login 发起应用独立登录".to_owned()
                        };
                    },
                    Err(error) => {
                        self.account = Account {
                            signed_in: false,
                            plan: None,
                            quota: String::new(),
                        };
                        self.models = Vec::new();
                        self.status = error;
                    },
                }
                !self.account.signed_in
            },
        }
    }

    fn choose_model(&self, config: &mut Connection, name: &str, safe: bool) -> (r: Result<
        AiAction,
        AiProblem,
    >)
        ensures
            model_result(*self, *old(config), *final(config), name@, safe, viewed(r)),
    {
        if !safe || text::byte_len(name) > MODEL_BYTES {
            return Err(AiProblem::ModelId);
        }
        match config.provider {
            Provider::Chatgpt => match find_model(&self.models, name) {
                None => Err(AiProblem::ModelUnlisted),
                Some(at) => {
                    let model: &Model = &self.models[at];
                    let keeps: bool = match &config.effort {
                        Some(effort) => model.validate_effort(effort.as_str()),
                        None => false,
                    };
                    if !keeps {
                        if !model.validate_effort(model.default_effort.as_str()) {
                            return Err(AiProblem::EffortUnsupported);
                        }
                        config.effort = Some(model.default_effort.clone());
                    }
                    config.model = Some(name.to_owned());
                    Ok(AiAction::Save)
                },
            },
            Provider::Api => match &mut config.api {
                None => Err(AiProblem::NoApi),
                Some(api) => {
                    api.id = name.to_owned();
                    Ok(AiAction::Save)
                },
            },
        }
    }

    fn set_effort(&self, config: &mut Connection, effort: &str) -> (r: Result<AiAction, AiProblem>)
        ensures
            effort_result(*self, *old(config), *final(config), effort@, viewed(r)),
    {
        if config.provider != Provider::Chatgpt {
            return Err(AiProblem::EffortNotOffered);
        }
        match self.chosen_at(config) {
            None => Err(AiProblem::ModelNotChosen),
            Some(at) => {
                if !self.models[at].validate_effort(effort) {
                    return Err(AiProblem::EffortUnsupported);
                }
                config.effort = Some(effort.to_owned());
                Ok(AiAction::Save)
            },
        }
    }

    fn check_enable(&self, config: &Connection) -> (r: Option<AiProblem>)
        ensures
            r == enable_problem(*self, *config),
    {
        match config.provider {
            Provider::Chatgpt => {
                if !self.account.signed_in {
                    return Some(AiProblem::NotSignedIn);
                }
                match self.chosen_at(config) {
                    None => Some(AiProblem::NoModel),
                    Some(at) => if self.models[at].validate_effort(set_effort(config)) {
                        None
                    } else {
                        Some(AiProblem::EffortUnsupported)
                    },
                }
            },
            Provider::Api => match &config.api {
                None => Some(AiProblem::ApiMissing),
                Some(api) => if !api.url_valid {
                    Some(AiProblem::ApiAddress)
                } else if text::starts_with(api.key_env.as_str(), "DANMU_") && api.key_present {
                    None
                } else {
                    Some(AiProblem::ApiKey)
                },
            },
        }
    }

    fn word_command(&self, config: &mut Connection, word: &str) -> (r: Result<AiAction, AiProblem>)
        ensures
            word_result(*self, *old(config), *final(config), word@, viewed(r)),
    {
        proof {
            lemma_words_differ();
        }
        if text::same(word, "settings") {
            return Ok(AiAction::ToggleSettings);
        }
        if text::same(word, "login") || text::same(word, "models") || text::same(word, "status") {
            return Ok(AiAction::Connect { action: word.to_owned() });
        }
        if text::same(word, "logout") {
            config.enabled = false;
            return Ok(AiAction::LogOut);
        }
        if text::same(word, "cancel-login") {
            return Ok(AiAction::CancelLogin);
        }
        if text::same(word, "enable") {
            if let Some(problem) = self.check_enable(config) {
                return Err(problem);
            }
            config.enabled = true;
            return Ok(AiAction::Save);
        }
        if text::same(word, "disable") {
            config.enabled = false;
            return Ok(AiAction::Save);
        }
        if text::same(word, "suggest") {
            config.mode = ReplyMode::Suggest;
            return Ok(AiAction::Save);
        }
        if text::same(word, "auto") {
            config.mode = ReplyMode::Auto;
            return Ok(AiAction::Save);
        }
        if text::same(word, "approve-mode") {
            config.mode = ReplyMode::Approve;
            return Ok(AiAction::Save);
        }
        if text::same(word, "pause") {
            config.mode = ReplyMode::Paused;
            return Ok(AiAction::SaveAndQueue { running: false });
        }
        if text::same(word, "resume-send") {
            config.mode = ReplyMode::Suggest;
            return Ok(AiAction::SaveAndQueue { running: true });
        }
        if text::same(word, "approve") {
            Ok(AiAction::Approve)
        } else if text::same(word, "discard") {
            Ok(AiAction::Discard)
        } else {
            Err(AiProblem::Usage)
        }
    }

    /// Runs a command on a draft of the settings of the connection: those in use change only once
    /// the draft has been saved. `safe` says that the word after `model` is safe to show.
    pub fn ai_command(&mut self, config: &mut Connection, args: &Vec<String>, safe: bool) -> (r:
        Result<AiAction, AiProblem>)
        ensures
            ai_commanded(
                *old(self),
                *final(self),
                *old(config),
                *final(config),
                text::views(args@),
                safe,
                viewed(r),
            ),
    {
        proof {
            lemma_words_differ();
        }
        if args.len() == 0 {
            return Ok(AiAction::TogglePanel);
        }
        let word: &str = args[0].as_str();
        proof {
            assert(text::views(args@)[0] == word@);
        }
        if args.len() == 1 {
            let r: Result<AiAction, AiProblem> = self.word_command(config, word);
            if text::same(word, "settings") {
                self.open = !self.open;
            } else if text::same(word, "login") || text::same(word, "models") || text::same(
                word,
                "status",
            ) {
                self.open = true;
            }
            return r;
        }
        if args.len() > 2 {
            return Err(AiProblem::Usage);
        }
        let value: &str = args[1].as_str();
        proof {
            assert(text::views(args@)[1] == value@);
        }
        if text::same(word, "provider") {
            if text::same(value, "chatgpt") {
                config.provider = Provider::Chatgpt;
            } else if text::same(value, "api") {
                config.provider = Provider::Api;
            } else {
                return Err(AiProblem::Provider);
            }
            config.enabled = false;
            self.checked = false;
            return Ok(AiAction::Save);
        }
        if text::same(word, "model") {
            self.choose_model(config, value, safe)
        } else if text::same(word, "effort") {
            self.set_effort(config, value)
        } else {
            Err(AiProblem::Usage)
        }
    }
}

proof fn lemma_words_differ()
    ensures
        "chatgpt"@ != "api"@,
        "pause"@ != "resume-send"@,
{
    reveal_strlit("pause");
    reveal_strlit("resume-send");
    assert("pause"@.len() == 5);
    assert("resume-send"@.len() == 11);
    reveal_strlit("chatgpt");
    reveal_strlit("api");
    assert("chatgpt"@.len() == 7);
    assert("api"@.len() == 3);
}

fn set_effort(config: &Connection) -> (r: &str)
    ensures
        r@ == effort_of(*config),
{
    match &config.effort {
        Some(effort) => effort.as_str(),
        None => "",
    }
}

/// The answer of a command as contracts speak of it.
pub open spec fn viewed(r: Result<AiAction, AiProblem>) -> Result<AiView, AiProblem> {
    match r {
        Ok(action) => Ok(action@),
        Err(problem) => Err(problem),
    }
}

/// A model on a line: its name, how hard it can think, and how hard it does by itself.
pub open spec fn model_line(model: Model) -> Seq<char> {
    model.model@ + " · "@ + model.display_name@ + " · 强度 "@ + text::joined(
        text::views(model.efforts@),
        "/"@,
    ) + " 默认"@ + model.default_effort@
}

/// The account on a line.
pub open spec fn account_line(account: Account) -> Seq<char> {
    "账号 "@ + (if account.signed_in {
        "已确认"@
    } else {
        "未确认"@
    }) + " · 套餐 "@ + (match account.plan {
        Some(plan) => plan@,
        None => "未报告"@,
    }) + " · "@ + account.quota@
}

/// The lines above the models.
pub open spec fn head_lines(
    settings: Settings,
    enabled: bool,
    mode: Seq<char>,
    model: Seq<char>,
) -> Seq<Seq<char>> {
    Seq::empty().push(
        "总开关 "@ + (if enabled {
            "开启"@
        } else {
            "关闭"@
        }) + " · 模式 "@ + mode + "（独立设置）"@,
    ).push(model).push("/ai settings或Esc关闭 · PageUp/PageDown滚动"@).push(
        settings.status@,
    ).push(account_line(settings.account)).push(
        "/ai login | cancel-login | logout | status | models"@,
    ).push("/ai provider chatgpt|api · /ai model <ID> · /ai effort <值>"@).push(
        "/ai enable|disable · suggest|approve-mode|auto · pause"@,
    ).push("账号可用模型（先登录/刷新；列表并非真实推理已验证）："@)
}

/// The lines of the settings. The official address is shown here and nowhere else.
pub open spec fn settings_text(
    settings: Settings,
    enabled: bool,
    mode: Seq<char>,
    model: Seq<char>,
) -> Seq<Seq<char>> {
    let listed = head_lines(settings, enabled, mode, model) + Seq::new(
        settings.models@.len(),
        |i: int| model_line(settings.models@[i]),
    );
    (match settings.url {
        Some(url) => listed.push("官方授权URL（仅本面板显示）："@ + url@),
        None => listed,
    }).push("/ai settings 关闭设置；API配置仍可用，订阅不自动回退API"@)
}

impl Settings {
    fn head(&self, enabled: bool, mode: &str, model: &str) -> (r: Vec<String>)
        ensures
            text::views(r@) == head_lines(*self, enabled, mode@, model@),
    {
        let mut lines: Vec<String> = text::no_lines();
        let mut first: String = text::add3(
            "总开关 ",
            if enabled {
                "开启"
            } else {
                "关闭"
            },
            " · 模式 ",
        );
        first.append(mode);
        first.append("（独立设置）");
        text::push_line(&mut lines, first);
        text::push_line(&mut lines, model.to_owned());
        text::push_line(
            &mut lines,
            "/ai settings或Esc关闭 · PageUp/PageDown滚动".to_owned(),
        );
        text::push_line(&mut lines, self.status.clone());
        let mut account: String = text::add3(
            "账号 ",
            if self.account.signed_in {
                "已确认"
            } else {
                "未确认"
            },
            " · 套餐 ",
        );
        account.append(
            match &self.account.plan {
                Some(plan) => plan.as_str(),
                None => "未报告",
            },
        );
        account.append(" · ");
        account.append(self.account.quota.as_str());
        text::push_line(&mut lines, account);
        text::push_line(
            &mut lines,
            "/ai login | cancel-login | logout | status | models".to_owned(),
        );
        text::push_line(
            &mut lines,
            "/ai provider chatgpt|api · /ai model <ID> · /ai effort <值>".to_owned(),
        );
        text::push_line(
            &mut lines,
            "/ai enable|disable · suggest|approve-mode|auto · pause".to_owned(),
        );
        text::push_line(
            &mut lines,
            "账号可用模型（先登录/刷新；列表并非真实推理已验证）：".to_owned(),
        );
        lines
    }

    /// The lines of the settings: the names of the mode and of the model are given as they are
    /// shown.
    pub fn lines(&self, enabled: bool, mode: &str, model: &str) -> (r: Vec<String>)
        ensures
            text::views(r@) == settings_text(*self, enabled, mode@, model@),
    {
        let mut lines: Vec<String> = self.head(enabled, mode, model);
        let ghost head = text::views(lines@);
        let ghost all = Seq::new(
            self.models@.len(),
            |i: int| model_line(self.models@[i]),
        );
        let mut i: usize = 0;
        proof {
            assert(head + all.take(0) =~= head);
        }
        while i < self.models.len()
            invariant
                i <= self.models@.len(),
                all == Seq::new(self.models@.len(), |i: int| model_line(self.models@[i])),
                text::views(lines@) == head + all.take(i as int),
            decreases self.models@.len() - i,
        {
            let model: &Model = &self.models[i];
            let mut line: String = text::add3(
                model.model.as_str(),
                " · ",
                model.display_name.as_str(),
            );
            line.append(" · 强度 ");
            line.append(text::join(&model.efforts, "/").as_str());
            line.append(" 默认");
            line.append(model.default_effort.as_str());
            proof {
                assert(head + all.take(i + 1) =~= (head + all.take(i as int)).push(
                    all[i as int],
                ));
            }
            text::push_line(&mut lines, line);
            i = i + 1;
        }
        proof {
            assert(all.take(i as int) =~= all);
        }
        if let Some(url) = &self.url {
            text::push_line(
                &mut lines,
                text::add2("官方授权URL（仅本面板显示）：", url.as_str()),
            );
        }
        text::push_line(
            &mut lines,
            "/ai settings 关闭设置；API配置仍可用，订阅不自动回退API".to_owned(),
        );
        lines
    }
}

/// The assistant has stopped itself, and that is still to be saved.
pub open spec fn stop_unsaved(faulted: bool, current: bool, shown: ReplyMode, saved: ReplyMode) -> bool {
    (faulted || (current && shown == ReplyMode::Paused)) && saved != ReplyMode::Paused
}

/// Says whether a stop of the assistant is to be saved: `current` says that what it shows is of
/// this run.
pub fn persist_ai_safety_stop(faulted: bool, current: bool, shown: ReplyMode, saved: ReplyMode) -> (r:
    bool)
    ensures
        r == stop_unsaved(faulted, current, shown, saved),
{
    (faulted || (current && shown == ReplyMode::Paused)) && saved != ReplyMode::Paused
}

impl Connection {
    /// The assistant is set to be paused whether or not that could be saved. The answer is what is
    /// to be told, where it could not.
    pub fn safety_stopped(&mut self, saved: bool) -> (r: Option<&'static str>)
        ensures
            *final(self) == (Connection { mode: ReplyMode::Paused, ..*old(self) }),
            saved ==> r is None,
            !saved ==> (r matches Some(said) && said@
                == "安全暂停未能保存；保持暂停，请检查配置目录写权限"@),
    {
        self.mode = ReplyMode::Paused;
        if saved {
            None
        } else {
            Some("安全暂停未能保存；保持暂停，请检查配置目录写权限")
        }
    }
}

impl Settings {
    /// Puts the draft of a connection to use, once it has been saved. Where it could not be saved,
    /// the connection in use stays; the replies that waited were dropped before, either way.
    pub fn apply_ai_config(
        &mut self,
        config: &mut Connection,
        draft: Connection,
        saved: Result<(), String>,
    ) -> (r: Result<(), String>)
        ensures
            r == saved,
            match saved {
                Ok(_) => {
                    &&& *final(config) == draft
                    &&& *final(self) == (Settings { status: final(self).status, ..*old(self) })
                    &&& final(self).status@ == "设置已保存；旧候选已取消，新事件使用新配置"@
                },
                Err(_) => *final(config) == *old(config) && *final(self) == *old(self),
            },
    {
        if saved.is_ok() {
            *config = draft;
            self.status = "设置已保存；旧候选已取消，新事件使用新配置".to_owned();
        }
        saved
    }

    /// Signs out, once the connection has been saved as switched off: the settings are opened, and
    /// the operation begins unless another one is under way. Where it could not be saved, the
    /// connection in use and the settings stay; the replies that waited were dropped before, either
    /// way.
    pub fn log_out(
        &mut self,
        config: &mut Connection,
        draft: Connection,
        saved: Result<(), String>,
    ) -> (r: Result<Option<u64>, String>)
        requires
            old(self).epoch < u64::MAX,
        ensures
            match saved {
                Ok(_) => {
                    &&& *final(config) == draft
                    &&& r matches Ok(number) && started(
                        Settings { open: true, ..*old(self) },
                        *final(self),
                        "logout"@,
                        number,
                    )
                },
                Err(error) => {
                    &&& r == Err::<Option<u64>, String>(error)
                    &&& *final(config) == *old(config)
                    &&& *final(self) == *old(self)
                },
            },
    {
        match self.apply_ai_config(config, draft, saved) {
            Ok(_) => {
                self.open = true;
                Ok(self.start("logout"))
            },
            Err(error) => Err(error),
        }
    }
}

/// The place of a model is that of the first with its name.
pub proof fn law_a_model_is_found_by_its_name(models: Seq<Model>, name: Seq<char>)
    ensures
        match model_place(models, name) {
            Some(at) => 0 <= at < models.len() && models[at].model@ == name && forall|i: int|
                0 <= i < at ==> (#[trigger] models[i]).model@ != name,
            None => forall|i: int| 0 <= i < models.len() ==> (#[trigger] models[i]).model@ != name,
        },
    decreases models.len(),
{
    if models.len() > 0 && models[0].model@ != name {
        let rest = models.skip(1);
        law_a_model_is_found_by_its_name(rest, name);
        match model_place(rest, name) {
            Some(at) => {
                assert forall|i: int| 0 <= i < at + 1 implies (#[trigger] models[i]).model@
                    != name by {
                    if i > 0 {
                        assert(rest[i - 1] == models[i]);
                    }
                }
            },
            None => {
                assert forall|i: int| 0 <= i < models.len() implies (#[trigger] models[i]).model@
                    != name by {
                    if i > 0 {
                        assert(rest[i - 1] == models[i]);
                    }
                }
            },
        }
    }
}

/// The words that set how replies are sent set just that: to propose them, to ask for each, to send
/// them alone, or to stop; the words that switch the assistant switch just it.
pub proof fn law_words_set_what_they_say(
    before_settings: Settings,
    after_settings: Settings,
    before: Connection,
    after: Connection,
    word: Seq<char>,
    safe: bool,
    r: Result<AiView, AiProblem>,
)
    requires
        ai_commanded(before_settings, after_settings, before, after, seq![word], safe, r),
    ensures
        word == "suggest"@ ==> after == (Connection { mode: ReplyMode::Suggest, ..before }),
        word == "approve-mode"@ ==> after == (Connection { mode: ReplyMode::Approve, ..before }),
        word == "auto"@ ==> after == (Connection { mode: ReplyMode::Auto, ..before }),
        word == "pause"@ ==> after == (Connection { mode: ReplyMode::Paused, ..before }) && r
            == Ok::<AiView, AiProblem>(AiView::SaveAndQueue { running: false }),
        word == "resume-send"@ ==> after == (Connection { mode: ReplyMode::Suggest, ..before })
            && r == Ok::<AiView, AiProblem>(AiView::SaveAndQueue { running: true }),
        word == "disable"@ ==> after == (Connection { enabled: false, ..before }) && r == Ok::<
            AiView,
            AiProblem,
        >(AiView::Save),
        word == "logout"@ ==> after == (Connection { enabled: false, ..before }) && r == Ok::<
            AiView,
            AiProblem,
        >(AiView::LogOut),
        word == "approve"@ ==> r == Ok::<AiView, AiProblem>(AiView::Approve) && after == before,
        word == "discard"@ ==> r == Ok::<AiView, AiProblem>(AiView::Discard) && after == before,
        word == "settings"@ ==> after == before && after_settings.open == !before_settings.open,
        word == "login"@ || word == "models"@ || word == "status"@ ==> r == Ok::<AiView, AiProblem>(
            AiView::Connect { action: word },
        ) && after == before && after_settings.open,
        after.mode != before.mode ==> word == "suggest"@ || word == "approve-mode"@ || word
            == "auto"@ || word == "pause"@ || word == "resume-send"@,
        r == Ok::<AiView, AiProblem>(AiView::Approve) ==> word == "approve"@,
{
    assert(seq![word][0] == word);
    reveal_strlit("settings");
    reveal_strlit("login");
    reveal_strlit("models");
    reveal_strlit("status");
    reveal_strlit("logout");
    reveal_strlit("cancel-login");
    reveal_strlit("enable");
    reveal_strlit("disable");
    reveal_strlit("suggest");
    reveal_strlit("approve-mode");
    reveal_strlit("auto");
    reveal_strlit("pause");
    reveal_strlit("resume-send");
    reveal_strlit("approve");
    reveal_strlit("discard");
    assert("login"@[0] == 'l' && "pause"@[0] == 'p');
    assert("models"@[0] == 'm' && "status"@[0] == 's' && "logout"@[0] == 'l' && "enable"@[0] == 'e');
    assert("disable"@[3] == 'a' && "suggest"@[3] == 'g' && "approve"@[3] == 'r' && "discard"@[3]
        == 'c');
    assert("cancel-login"@[0] == 'c' && "approve-mode"@[0] == 'a');
}

/// Words with a value set the value they name: the provider, which is then checked anew and off
/// until it is enabled, the model, where the account has it, and the effort, where the model offers
/// it; otherwise nothing changes.
pub proof fn law_values_set_what_they_name(
    before_settings: Settings,
    after_settings: Settings,
    before: Connection,
    after: Connection,
    word: Seq<char>,
    value: Seq<char>,
    safe: bool,
    r: Result<AiView, AiProblem>,
)
    requires
        ai_commanded(before_settings, after_settings, before, after, seq![word, value], safe, r),
    ensures
        r is Err ==> after == before && after_settings == before_settings,
        word == "provider"@ ==> (r is Ok <==> value == "chatgpt"@ || value == "api"@),
        word == "provider"@ && value == "api"@ ==> after.provider == Provider::Api && !after.enabled
            && !after_settings.checked && after.model == before.model && after.api == before.api,
        word == "provider"@ && value == "chatgpt"@ ==> after.provider == Provider::Chatgpt
            && !after.enabled && !after_settings.checked && after.model == before.model,
        word == "model"@ && r is Ok && before.provider == Provider::Chatgpt ==> text::opt_view(
            after.model,
        ) == Some(value) && after.provider == before.provider && exists|i: int|
            {
                &&& 0 <= i < before_settings.models@.len()
                &&& (#[trigger] before_settings.models@[i]).model@ == value
                &&& after.effort is Some
                &&& before_settings.models@[i].supports(after.effort->0@)
            },
        word == "model"@ && r is Ok && before.provider == Provider::Api ==> after.api is Some
            && after.api->0.id@ == value && after.model == before.model,
        word == "effort"@ && r is Ok ==> text::opt_view(after.effort) == Some(value) && after.model
            == before.model && after.provider == Provider::Chatgpt,
        word != "provider"@ && word != "model"@ && word != "effort"@ ==> r is Err,
        after.mode == before.mode,
        after.enabled ==> before.enabled,
{
    assert(seq![word, value][0] == word && seq![word, value][1] == value);
    reveal_strlit("provider");
    reveal_strlit("model");
    reveal_strlit("effort");
    reveal_strlit("chatgpt");
    reveal_strlit("api");
    assert("provider"@.len() == 8 && "model"@.len() == 5 && "effort"@.len() == 6);
    assert("chatgpt"@.len() == 7 && "api"@.len() == 3);
    law_a_model_is_found_by_its_name(before_settings.models@, value);
    if word == "model"@ && r is Ok && before.provider == Provider::Chatgpt {
        assert(model_result(before_settings, before, after, value, safe, r));
        let at = model_place(before_settings.models@, value)->0;
        assert(before_settings.models@[at].model@ == value);
    }
}

/// An assistant can be enabled with an account exactly where it is signed in and has chosen a model
/// that the account has with an effort that the model offers.
pub proof fn law_what_enabling_with_an_account_takes(settings: Settings, config: Connection)
    requires
        config.provider == Provider::Chatgpt,
    ensures
        enable_problem(settings, config) is None ==> settings.account.signed_in && config.model
            is Some && exists|i: int|
            0 <= i < settings.models@.len() && (#[trigger] settings.models@[i]).model@
                == config.model->0@ && settings.models@[i].supports(effort_of(config)),
        !settings.account.signed_in ==> enable_problem(settings, config) == Some(
            AiProblem::NotSignedIn,
        ),
        settings.account.signed_in && config.model is None ==> enable_problem(settings, config)
            == Some(AiProblem::NoModel),
{
    if config.model is Some {
        law_a_model_is_found_by_its_name(settings.models@, config.model->0@);
        if enable_problem(settings, config) is None {
            let at = chosen(settings, config)->0;
            assert(settings.models@[at].model@ == config.model->0@);
        }
    }
}

/// With an interface of its own, an assistant can be enabled exactly where its address is valid and
/// its key stands in a variable of this program.
pub proof fn law_what_enabling_an_interface_takes(settings: Settings, config: Connection)
    requires
        config.provider == Provider::Api,
    ensures
        enable_problem(settings, config) is None <==> config.api is Some && config.api->0.url_valid
            && config.api->0.key_present && text::has_prefix(config.api->0.key_env@, "DANMU_"@),
{
}

/// The answer to an earlier request changes nothing; the answer to the current one ends it, and a
/// failure leaves nobody signed in.
pub proof fn law_late_answers_change_nothing(
    before: Settings,
    after: Settings,
    event: ConnectionEvent,
    r: bool,
)
    requires
        applied(before, after, event, r),
    ensures
        ({
            let epoch = match event {
                ConnectionEvent::Url { epoch, .. } => epoch,
                ConnectionEvent::Finished { epoch, .. } => epoch,
            };
            &&& epoch != before.epoch ==> after == before && !r
            &&& epoch == before.epoch && event is Finished ==> !after.busy && after.url is None
            &&& epoch == before.epoch && event is Finished ==> (r <==> !after.account.signed_in)
            &&& epoch == before.epoch && event is Finished && event->result is Err
                ==> !after.account.signed_in && after.models@.len() == 0
            &&& epoch == before.epoch && event is Url ==> after.url == Some(event->url)
                && after.busy == before.busy
        }),
{
}

/// One request is made at a time, each under the next number.
pub proof fn law_one_request_at_a_time(
    before: Settings,
    after: Settings,
    action: Seq<char>,
    number: Option<u64>,
)
    requires
        started(before, after, action, number),
        before.epoch < u64::MAX,
    ensures
        number is None <==> before.busy,
        number is Some ==> number->0 == before.epoch + 1 && after.epoch == number->0,
        number is None ==> after.epoch == before.epoch,
        after.busy,
{
}

} // verus!
