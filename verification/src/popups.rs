//! Help and the palette of commands.
use vstd::prelude::*;
use vstd::string::*;

use crate::app;
use crate::app::TerminalApp;
use crate::commands;
use crate::commands::CommandSpec;
use crate::desk::{Desk, HelpState};
use crate::geometry;
use crate::geometry::Rect;
use crate::panel::Facts;
use crate::style;
use crate::style::{Span, SpanView, Tone};
use crate::text;
use crate::unicode;

verus! {

/// The sections of help.
pub const SECTIONS: usize = 6;

/// A section of help: its heading and its text.
pub open spec fn section_text(i: int) -> (Seq<char>, Seq<char>) {
    if i == 0 {
        ("常用"@, "输入 / 只显示常用操作；输入中文或命令前缀搜索全部，↑↓选择、Enter执行、Tab补全。/mute静音，/unmute恢复声音，/scene切场景，/diag看诊断。Ctrl-O独立搜索并保留草稿与光标。低频配置在/settings，AI运行操作在/ai。\n普通输入 Enter 人工发送；粘贴只插入、不执行。Shift-↑/↓选择回复对象，Enter插入@；滚轮或↑↓浏览历史，Esc / End回最新。主界面直接拖选文字，用终端复制快捷键（macOS为⌘C）；↶表示重启前的弹幕。/pin标记消息；/find 打开关键词编辑，/find [关键词]直接搜索归档。"@)
    } else if i == 1 {
        ("设置与回复"@, "设置用方向键选择、Enter执行、Esc返回；“设置”“当前操作”为只读分组。直达页Esc一次关闭。Tab切换同级分类，F1或?展开说明。编辑Enter保存、Esc取消；归档搜索必须输入关键词，取消不搜索。\n/display theme选择主题；/display names或time on|off；/display layout chat|list保存布局。/settings ai集中AI配置；/ai model、/ai replies、/ai materials、/ai advanced直达子页，/ai workspace编辑工作空间。\n/review查看候选全文；Shift-Enter发送本条，e编辑，Delete丢弃，Tab下一条。长文须先下滑看完；编辑只保存，须重新看完才可发送。"@)
    } else if i == 2 {
        ("AI运行"@, "/ai start 启动；/pause 暂停并撤权、保留可继续状态；/ai stop 释放专用进程。/ai range 本场范围，/ai topic 本场主题。\n/ai auto on 允许公开自动发送，同房间同账号记住；/ai auto off 立即撤权。旧自动偏好不是许可。/ai visible 处理可见弹幕；/ai reset 重建上下文。/diag repair 先备份再重建历史。"@)
    } else if i == 3 {
        ("指令与编辑"@, "指令搜索用↑↓选择、Enter执行；Tab只补全，带参数命令不猜参数。Ctrl-O、Ctrl-G、Ctrl-P、Ctrl-C仍兼容；不需要鼠标点击。\n←/→移光标，Home/End到首尾，Alt-←/→跳词。Backspace/Delete删除，Ctrl-U清空，Ctrl-W删前词，Ctrl-K删到末尾。单次粘贴最多4096字节，控制字符过滤。"@)
    } else if i == 4 {
        ("状态与诊断"@, "输入框右侧保留人数、点赞与在线数；-- 表示暂无可靠数据。✓送达，?送达未确认且不自动重发，×被拒。AI逐条为绿色，未授权为黄色，自动为红色。\n/settings system提供诊断和修复；/about查看官网、创始人和版本。/diag保留历史告警、真实路径与连接细节，不扫描工具。人工发送失败仅结束本次及旧排队任务，后续新输入可继续发送；未确认消息不自动重发，登录失效仍须重新登录。"@)
    } else {
        ("OBS与退出"@, "/settings obs配置接入地址、端口、密码和输入；/obs config host、port、mic不带参数打开编辑器，带值立即保存；/obs connect检查连接。\n/mute静音；/unmute公开声音；/scene [名称]编辑或切换场景；/obs start开始推流。只有/obs stop二次确认，确认后3秒内可取消。/quit退出弹幕台，不停止推流。\n/room title [标题]公开修改直播间标题，/room cover [图片路径]提交封面；仅主账号本人的直播间可修改，审核中不代表已生效。本地模式拒绝真实账号、直播间修改与OBS。"@)
    }
}

fn section(i: usize) -> (r: (&'static str, &'static str))
    ensures
        (r.0@, r.1@) == section_text(i as int),
{
    if i == 0 {
        ("常用", "输入 / 只显示常用操作；输入中文或命令前缀搜索全部，↑↓选择、Enter执行、Tab补全。/mute静音，/unmute恢复声音，/scene切场景，/diag看诊断。Ctrl-O独立搜索并保留草稿与光标。低频配置在/settings，AI运行操作在/ai。\n普通输入 Enter 人工发送；粘贴只插入、不执行。Shift-↑/↓选择回复对象，Enter插入@；滚轮或↑↓浏览历史，Esc / End回最新。主界面直接拖选文字，用终端复制快捷键（macOS为⌘C）；↶表示重启前的弹幕。/pin标记消息；/find 打开关键词编辑，/find [关键词]直接搜索归档。")
    } else if i == 1 {
        ("设置与回复", "设置用方向键选择、Enter执行、Esc返回；“设置”“当前操作”为只读分组。直达页Esc一次关闭。Tab切换同级分类，F1或?展开说明。编辑Enter保存、Esc取消；归档搜索必须输入关键词，取消不搜索。\n/display theme选择主题；/display names或time on|off；/display layout chat|list保存布局。/settings ai集中AI配置；/ai model、/ai replies、/ai materials、/ai advanced直达子页，/ai workspace编辑工作空间。\n/review查看候选全文；Shift-Enter发送本条，e编辑，Delete丢弃，Tab下一条。长文须先下滑看完；编辑只保存，须重新看完才可发送。")
    } else if i == 2 {
        ("AI运行", "/ai start 启动；/pause 暂停并撤权、保留可继续状态；/ai stop 释放专用进程。/ai range 本场范围，/ai topic 本场主题。\n/ai auto on 允许公开自动发送，同房间同账号记住；/ai auto off 立即撤权。旧自动偏好不是许可。/ai visible 处理可见弹幕；/ai reset 重建上下文。/diag repair 先备份再重建历史。")
    } else if i == 3 {
        ("指令与编辑", "指令搜索用↑↓选择、Enter执行；Tab只补全，带参数命令不猜参数。Ctrl-O、Ctrl-G、Ctrl-P、Ctrl-C仍兼容；不需要鼠标点击。\n←/→移光标，Home/End到首尾，Alt-←/→跳词。Backspace/Delete删除，Ctrl-U清空，Ctrl-W删前词，Ctrl-K删到末尾。单次粘贴最多4096字节，控制字符过滤。")
    } else if i == 4 {
        ("状态与诊断", "输入框右侧保留人数、点赞与在线数；-- 表示暂无可靠数据。✓送达，?送达未确认且不自动重发，×被拒。AI逐条为绿色，未授权为黄色，自动为红色。\n/settings system提供诊断和修复；/about查看官网、创始人和版本。/diag保留历史告警、真实路径与连接细节，不扫描工具。人工发送失败仅结束本次及旧排队任务，后续新输入可继续发送；未确认消息不自动重发，登录失效仍须重新登录。")
    } else {
        ("OBS与退出", "/settings obs配置接入地址、端口、密码和输入；/obs config host、port、mic不带参数打开编辑器，带值立即保存；/obs connect检查连接。\n/mute静音；/unmute公开声音；/scene [名称]编辑或切换场景；/obs start开始推流。只有/obs stop二次确认，确认后3秒内可取消。/quit退出弹幕台，不停止推流。\n/room title [标题]公开修改直播间标题，/room cover [图片路径]提交封面；仅主账号本人的直播间可修改，审核中不代表已生效。本地模式拒绝真实账号、直播间修改与OBS。")
    }
}

/// The lines of a section: its heading, its text, and an empty line.
pub open spec fn section_lines(i: int, width: nat) -> Seq<Seq<SpanView>> {
    let (heading, body) = section_text(i);
    (style::wrapped_spans(Seq::empty().push(style::bold_toned(heading, Tone::Info)), width)
        + style::wrapped_spans(Seq::empty().push(style::plain(body)), width)).push(Seq::empty())
}

/// The lines of the first sections.
pub open spec fn sections_lines(count: nat, width: nat) -> Seq<Seq<SpanView>>
    decreases count,
{
    if count == 0 {
        Seq::empty()
    } else {
        sections_lines((count - 1) as nat, width) + section_lines(count - 1, width)
    }
}

/// What a session that reaches nothing outside has besides.
pub open spec fn local_lines(width: nat) -> Seq<Seq<SpanView>> {
    style::wrapped_spans(
        Seq::empty().push(style::toned("仅本地练习（不连接直播平台）"@, Tone::Info)),
        width,
    ) + style::wrapped_spans(
        Seq::empty().push(
            style::plain(
                "/event 姓名 正文 注入本地弹幕；/local confirmed|uncertain|rejected 设下一次本地送达结果。\n/session end 结束本地场次；/session new 新建场次且不授权，不是 OBS 控制。"@,
            ),
        ),
        width,
    )
}

/// All of help.
pub open spec fn all_help(local: bool, width: nat) -> Seq<Seq<SpanView>> {
    let common = sections_lines(SECTIONS as nat, width);
    if local {
        common + local_lines(width)
    } else {
        common
    }
}

fn one_span(span: Span, width: u16) -> (r: Vec<Vec<Span>>)
    ensures
        style::line_views(r@) == style::wrapped_spans(Seq::empty().push(span@), width as nat),
{
    let mut spans: Vec<Span> = style::no_spans();
    style::push_span(&mut spans, span);
    style::wrap_styled_spans(&spans, width)
}

/// All of help, in lines of a width.
pub fn help_lines(local: bool, width: u16) -> (r: Vec<Vec<Span>>)
    ensures
        style::line_views(r@) == all_help(local, width as nat),
{
    let mut lines: Vec<Vec<Span>> = Vec::new();
    let mut i: usize = 0;
    proof {
        assert(style::line_views(lines@) =~= Seq::empty());
    }
    while i < SECTIONS
        invariant
            i <= SECTIONS,
            style::line_views(lines@) == sections_lines(i as nat, width as nat),
        decreases SECTIONS - i,
    {
        let (heading, body): (&'static str, &'static str) = section(i);
        let ghost before = style::line_views(lines@);
        style::append_lines(&mut lines, one_span(Span::bold(heading.to_owned(), Tone::Info), width));
        style::append_lines(&mut lines, one_span(Span::raw(body.to_owned()), width));
        style::push_spans(&mut lines, style::no_spans());
        i = i + 1;
        proof {
            assert(style::line_views(lines@) =~= before + section_lines(i - 1, width as nat));
        }
    }
    if local {
        let ghost before = style::line_views(lines@);
        style::append_lines(
            &mut lines,
            one_span(
                Span::styled("仅本地练习（不连接直播平台）".to_owned(), Tone::Info),
                width,
            ),
        );
        style::append_lines(
            &mut lines,
            one_span(
                Span::raw(
                    "/event 姓名 正文 注入本地弹幕；/local confirmed|uncertain|rejected 设下一次本地送达结果。\n/session end 结束本地场次；/session new 新建场次且不授权，不是 OBS 控制。".to_owned(),
                ),
                width,
            ),
        );
        proof {
            assert(style::line_views(lines@) =~= before + local_lines(width as nat));
        }
    }
    lines
}

/// Where help stands once it is known how many lines there are and how many fit.
pub open spec fn help_placed(help: HelpState, lines: nat, height: u16) -> HelpState {
    let rows = unicode::at_least_one(height as nat);
    let most = unicode::minus(lines as int, rows as int);
    HelpState {
        page_rows: rows as usize,
        max_scroll: most as usize,
        scroll: unicode::least(help.scroll as int, most as int) as usize,
    }
}

/// What stands below help.
pub open spec fn help_footer(help: HelpState, sending: bool) -> Seq<char> {
    " "@ + text::decimal_digits((help.scroll + 1) as nat) + "/"@ + text::decimal_digits(
        (help.max_scroll + 1) as nat,
    ) + " · ↑↓/PgDn · Esc返回 · 助手发送"@ + (if sending {
        "已许可"@
    } else {
        "未许可"@
    }) + " "@
}

/// Help as it is shown.
#[derive(Debug)]
pub struct HelpPage {
    pub lines: Vec<Vec<Span>>,
    pub footer: String,
}

/// The palette of commands as it is shown.
#[derive(Debug)]
pub struct PalettePage {
    pub area: Rect,
    pub title: String,
    pub footer: &'static str,
    /// The commands that are shown, each with its text and its colour.
    pub items: Vec<PaletteItem>,
    /// The place of the selected command among those that are shown.
    pub selected: usize,
}

#[derive(Debug)]
pub struct PaletteItem {
    pub name: String,
    pub tone: Tone,
    pub description: &'static str,
}

pub open spec fn item_name(spec: CommandSpec) -> Seq<char> {
    spec.usage@ + "  "@ + text::trimmed_end(spec.completion@) + "   "@
}

pub open spec fn item_tone(spec: CommandSpec) -> Tone {
    if spec.danger {
        Tone::Red
    } else {
        commands::category_tone(spec.category)
    }
}

/// The palette's place on the screen: how many commands fit, which come first, and where it lies.
pub ghost struct PalettePlace {
    pub visible: nat,
    pub selection: nat,
    pub offset: nat,
    pub area: Rect,
}

/// How many commands fit at most.
pub open spec fn palette_capacity(height: u16) -> int {
    let half = height / 2;
    unicode::least(
        if half < 8 {
            8
        } else if half > 12 {
            12
        } else {
            half as int
        },
        unicode::minus(height as int, 2) as int,
    )
}

pub open spec fn palette_place(
    count: nat,
    selection: usize,
    area: Rect,
) -> PalettePlace {
    let visible = unicode::least(
        if count == 0 {
            1
        } else {
            count as int
        },
        palette_capacity(area.height),
    );
    let held = unicode::least(selection as int, unicode::minus(count as int, 1) as int);
    let height = unicode::least(visible + 2, area.height as int) as u16;
    PalettePlace {
        visible: visible as nat,
        selection: held as nat,
        offset: unicode::least(
            unicode::minus(held, visible - 1) as int,
            unicode::minus(count as int, visible) as int,
        ) as nat,
        area: Rect {
            x: (area.x + 2) as u16,
            y: (area.y + area.height - height) as u16,
            width: unicode::least(unicode::minus(area.width as int, 4) as int, 72) as u16,
            height,
        },
    }
}

/// The area above the line that is typed.
pub open spec fn above_input(area: Rect, input_lines: u16) -> Rect {
    Rect { height: unicode::minus(area.height as int, input_lines + 1) as u16, ..area }
}

/// The palette is shown: something can be chosen, or nothing was found for what was searched.
pub open spec fn palette_shown(app: TerminalApp, count: nat, height: u16) -> bool {
    app.review.edit is None && !app.desk.secret_mode && !(count == 0 && app.desk.search is None)
        && height >= 4
}

/// The selected command is always among those that are shown.
pub proof fn law_the_selected_command_is_shown(count: nat, selection: usize, area: Rect)
    requires
        count > 0,
        area.height >= 4,
    ensures
        ({
            let place = palette_place(count, selection, area);
            &&& place.offset <= place.selection < place.offset + place.visible
            &&& place.offset + place.visible <= count
            &&& place.visible + 2 <= area.height
        }),
{
}

struct Placed {
    visible: usize,
    selection: usize,
    offset: usize,
    area: Rect,
}

fn place_palette(count: usize, selection: usize, area: Rect) -> (r: Placed)
    requires
        area.wf(),
        area.x + 2 <= u16::MAX,
        area.height >= 4,
    ensures
        palette_place(count as nat, selection, area) == (PalettePlace {
            visible: r.visible as nat,
            selection: r.selection as nat,
            offset: r.offset as nat,
            area: r.area,
        }),
{
    let half: u16 = area.height / 2;
    let wanted: u16 = if half < 8 {
        8
    } else if half > 12 {
        12
    } else {
        half
    };
    let capacity: usize = geometry::min_u16(wanted, area.height - 2) as usize;
    let visible: usize = if count == 0 {
        1
    } else if count < capacity {
        count
    } else {
        capacity
    };
    let last: usize = count.saturating_sub(1);
    let held: usize = if selection < last {
        selection
    } else {
        last
    };
    let low: usize = held.saturating_sub(visible - 1);
    let high: usize = count.saturating_sub(visible);
    let tall: u16 = visible as u16 + 2;
    Placed {
        visible,
        selection: held,
        offset: if low < high {
            low
        } else {
            high
        },
        area: Rect {
            x: area.x + 2,
            y: area.y + area.height - tall,
            width: geometry::min_u16(area.width.saturating_sub(4), 72),
            height: tall,
        },
    }
}

fn palette_items(offered: &Vec<CommandSpec>, offset: usize, shown: usize) -> (r: Vec<PaletteItem>)
    requires
        offset + shown <= offered@.len(),
    ensures
        r@.len() == shown,
        forall|k: int| 0 <= k < shown ==> is_item(#[trigger] r@[k], offered@[offset + k]),
{
    let mut items: Vec<PaletteItem> = Vec::new();
    let count: usize = offered.len();
    let mut i: usize = 0;
    while i < shown
        invariant
            i <= shown,
            offset + shown <= count,
            count == offered@.len(),
            items@.len() == i,
            forall|k: int| 0 <= k < i ==> is_item(#[trigger] items@[k], offered@[offset + k]),
        decreases shown - i,
    {
        let spec: &CommandSpec = &offered[offset + i];
        let mut name: String = text::add3(
            spec.usage,
            "  ",
            text::trim_end(spec.completion).as_str(),
        );
        name.append("   ");
        let tone: Tone = if spec.danger {
            Tone::Red
        } else {
            spec.category.color()
        };
        items.push(PaletteItem { name, tone, description: spec.description });
        i = i + 1;
    }
    items
}

impl TerminalApp {
    /// Help as it is shown. It is kept within its lines.
    pub fn draw_help(&mut self, local: bool, width: u16, height: u16) -> (r: Option<HelpPage>)
        requires
            old(self).wf(),
        ensures
            final(self).wf(),
            match old(self).desk.help {
                None => r is None && *final(self) == *old(self),
                Some(help) => {
                    let all = all_help(local, width as nat);
                    let placed = help_placed(help, all.len(), height);
                    &&& *final(self) == (TerminalApp {
                        desk: Desk { help: Some(placed), ..old(self).desk },
                        ..*old(self)
                    })
                    &&& r matches Some(page) && style::line_views(page.lines@) == all.subrange(
                        placed.scroll as int,
                        unicode::least(placed.scroll + placed.page_rows, all.len() as int),
                    ) && page.footer@ == help_footer(placed, old(self).automation.sending)
                },
            },
    {
        let help: HelpState = match self.desk.help {
            Some(help) => help,
            None => {
                return None;
            },
        };
        let all: Vec<Vec<Span>> = help_lines(local, width);
        let rows: usize = if height == 0 {
            1
        } else {
            height as usize
        };
        let most: usize = all.len().saturating_sub(rows);
        let scroll: usize = if help.scroll < most {
            help.scroll
        } else {
            most
        };
        self.desk.help = Some(HelpState { scroll, max_scroll: most, page_rows: rows });
        let mut footer: String = text::add3(
            " ",
            text::decimal(scroll as u64 + 1).as_str(),
            "/",
        );
        footer.append(text::decimal(most as u64 + 1).as_str());
        footer.append(" · ↑↓/PgDn · Esc返回 · 助手发送");
        footer.append(
            if self.automation.sending {
                "已许可"
            } else {
                "未许可"
            },
        );
        footer.append(" ");
        let end: usize = if rows < all.len() - scroll {
            scroll + rows
        } else {
            all.len()
        };
        let ghost whole = style::line_views(all@);
        let mut rest: Vec<Vec<Span>> = all;
        rest.truncate(end);
        let lines: Vec<Vec<Span>> = rest.split_off(scroll);
        proof {
            assert(style::line_views(lines@) =~= whole.subrange(scroll as int, end as int));
        }
        Some(HelpPage { lines, footer })
    }

    /// The palette as it is shown, where it is. The selection is kept within the commands.
    pub fn draw_command_palette(&mut self, facts: &Facts, area: Rect) -> (r: Option<PalettePage>)
        requires
            old(self).wf(),
            area.wf(),
            area.x + 2 <= u16::MAX,
        ensures
            final(self).wf(),
            ({
                let offered = old(self).desk.offered(app::offers_ai(*facts));
                let above = above_input(
                    area,
                    (1 + unicode::least(
                        unicode::wrapped_lines(
                            crate::input_view::shown_input(*old(self)),
                            crate::input_view::content_columns(area.width),
                        ).len() as int,
                        4,
                    )) as u16,
                );
                let place = palette_place(
                    offered.len(),
                    old(self).desk.slash_selection,
                    above,
                );
                if !palette_shown(*old(self), offered.len(), above.height) {
                    r is None && *final(self) == *old(self)
                } else {
                    &&& *final(self) == (TerminalApp {
                        desk: Desk {
                            slash_selection: place.selection as usize,
                            ..old(self).desk
                        },
                        ..*old(self)
                    })
                    &&& r matches Some(page) && shows(page, offered, place, old(self).desk.search
                        is Some)
                }
            }),
    {
        let typed: u16 = self.input_area_height(area.width);
        let height: u16 = area.height.saturating_sub(typed + 1);
        let offered: Vec<CommandSpec> = self.desk.command_suggestions(
            TerminalApp::include_ai(facts),
        );
        let searching: bool = self.desk.search.is_some();
        if self.review.edit.is_some() || self.desk.secret_mode || (offered.len() == 0
            && !searching) || height < 4 {
            return None;
        }
        let count: usize = offered.len();
        let place: Placed = place_palette(
            count,
            self.desk.slash_selection,
            Rect { height, ..area },
        );
        self.desk.slash_selection = place.selection;
        let items: Vec<PaletteItem> = palette_items(
            &offered,
            place.offset,
            if count == 0 {
                0
            } else {
                place.visible
            },
        );
        let title: String = text::add3(
            " 命令 · 共 ",
            text::decimal(count as u64).as_str(),
            " 项 · ↑↓选择 · Enter执行 · Tab补全 ",
        );
        let footer: &'static str = if searching {
            " 输入中文搜索全部 · Esc恢复草稿 · 不会发送弹幕 "
        } else {
            " 常用操作 · 输入中文搜索全部 · Ctrl-O保留草稿 "
        };
        Some(
            PalettePage {
                area: place.area,
                title,
                footer,
                items,
                selected: place.selection - place.offset,
            },
        )
    }
}

pub open spec fn is_item(item: PaletteItem, spec: CommandSpec) -> bool {
    item.name@ == item_name(spec) && item.tone == item_tone(spec) && item.description
        == spec.description
}

/// The page shows the commands at a place. Without commands it has no items.
pub open spec fn shows(
    page: PalettePage,
    offered: Seq<CommandSpec>,
    place: PalettePlace,
    searching: bool,
) -> bool {
    &&& page.area == place.area
    &&& page.title@ == " 命令 · 共 "@ + text::decimal_digits(offered.len())
        + " 项 · ↑↓选择 · Enter执行 · Tab补全 "@
    &&& page.footer@ == if searching {
        " 输入中文搜索全部 · Esc恢复草稿 · 不会发送弹幕 "@
    } else {
        " 常用操作 · 输入中文搜索全部 · Ctrl-O保留草稿 "@
    }
    &&& page.items@.len() == if offered.len() == 0 {
        0
    } else {
        place.visible
    }
    &&& forall|k: int|
        0 <= k < page.items@.len() ==> is_item(
            #[trigger] page.items@[k],
            offered[place.offset + k],
        )
    &&& page.selected == place.selection - place.offset
}

/// The help is placed so that a page is what fits, and its end can be reached but not passed.
pub proof fn law_the_help_ends_with_its_last_line(help: HelpState, lines: nat, height: u16)
    requires
        height > 0,
        lines <= usize::MAX,
    ensures
        ({
            let placed = help_placed(help, lines, height);
            &&& placed.page_rows == height
            &&& placed.scroll <= placed.max_scroll
            &&& lines <= height ==> placed.max_scroll == 0
            &&& lines > height ==> placed.max_scroll + height == lines
            &&& help.scroll <= placed.max_scroll ==> placed.scroll == help.scroll
        }),
{
}

/// What the list of commands shows are the commands that are offered, in their order from the first
/// that is in view, with the chosen one among them.
pub proof fn law_the_list_shows_what_is_offered(
    page: PalettePage,
    offered: Seq<CommandSpec>,
    place: PalettePlace,
    searching: bool,
    k: int,
)
    requires
        shows(page, offered, place, searching),
        0 <= k < page.items@.len(),
    ensures
        page.items@[k].description == offered[place.offset + k].description,
        text::has_prefix(page.items@[k].name@, offered[place.offset + k].usage@),
        page.items@[k].tone == Tone::Red || !offered[place.offset + k].danger,
        page.selected + place.offset == place.selection,
{
    let item = page.items@[k];
    let spec = offered[place.offset + k];
    assert(is_item(item, spec));
    assert(item.name@.subrange(0, spec.usage@.len() as int) =~= spec.usage@);
}

} // verus!
