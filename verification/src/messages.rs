use vstd::prelude::*;
use crate::config::Language;

verus! {

/// The texts the tool shows, in one language.
pub struct Msg {
    pub added: &'static str,
    pub removed: &'static str,
    pub default_set: &'static str,
    pub swapped: &'static str,
    pub select_prompt: &'static str,
    pub default_marker: &'static str,
    pub remove_prompt: &'static str,
    pub default_prompt: &'static str,
    pub lang_prompt: &'static str,
    pub swap_prompt_first: &'static str,
    pub swap_prompt_second: &'static str,
}

/// The texts of a `Msg`.
pub struct MsgText {
    pub added: Seq<char>,
    pub removed: Seq<char>,
    pub default_set: Seq<char>,
    pub swapped: Seq<char>,
    pub select_prompt: Seq<char>,
    pub default_marker: Seq<char>,
    pub remove_prompt: Seq<char>,
    pub default_prompt: Seq<char>,
    pub lang_prompt: Seq<char>,
    pub swap_prompt_first: Seq<char>,
    pub swap_prompt_second: Seq<char>,
}

impl View for Msg {
    type V = MsgText;

    open spec fn view(&self) -> MsgText {
        MsgText {
            added: self.added@,
            removed: self.removed@,
            default_set: self.default_set@,
            swapped: self.swapped@,
            select_prompt: self.select_prompt@,
            default_marker: self.default_marker@,
            remove_prompt: self.remove_prompt@,
            default_prompt: self.default_prompt@,
            lang_prompt: self.lang_prompt@,
            swap_prompt_first: self.swap_prompt_first@,
            swap_prompt_second: self.swap_prompt_second@,
        }
    }
}

/// The English texts.
pub open spec fn english_text() -> MsgText {
    MsgText {
        added: "Added"@,
        removed: "Removed"@,
        default_set: "Default set to"@,
        swapped: "Swapped"@,
        select_prompt: "hatoba: Select working directory  (↑/↓ j/k to move, Enter/Space to confirm, Esc/q to cancel"@,
        default_marker: "  (default)"@,
        remove_prompt: "hatoba: Select directory to remove  (↑/↓ j/k to move, Enter/Space to confirm, Esc/q to cancel"@,
        default_prompt: "hatoba: Select directory to set as default  (↑/↓ j/k to move, Enter/Space to confirm, Esc/q to cancel"@,
        lang_prompt: "hatoba: Select language  (↑/↓ j/k to move, Enter/Space to confirm, Esc/q to cancel"@,
        swap_prompt_first: "hatoba: Swap — select first directory  (↑/↓ j/k to move, Enter/Space to confirm, Esc/q to cancel"@,
        swap_prompt_second: "hatoba: Swap — select second directory  (↑/↓ j/k to move, Enter/Space to confirm, Esc/q to cancel"@,
    }
}

/// The Japanese texts.
pub open spec fn japanese_text() -> MsgText {
    MsgText {
        added: "追加しました"@,
        removed: "削除しました"@,
        default_set: "デフォルトを変更しました"@,
        swapped: "並び替えました"@,
        select_prompt: "hatoba: 作業ディレクトリを選択  (↑/↓ j/k で移動、Enter/Space で決定、Esc/q でキャンセル"@,
        default_marker: "  (デフォルト)"@,
        remove_prompt: "hatoba: 削除するディレクトリを選択  (↑/↓ j/k で移動、Enter/Space で決定、Esc/q でキャンセル"@,
        default_prompt: "hatoba: デフォルトに設定するディレクトリを選択  (↑/↓ j/k で移動、Enter/Space で決定、Esc/q でキャンセル"@,
        lang_prompt: "hatoba: 言語を選択  (↑/↓ j/k で移動、Enter/Space で決定、Esc/q でキャンセル"@,
        swap_prompt_first: "hatoba: 並び替え — 1つ目のディレクトリを選択  (↑/↓ j/k で移動、Enter/Space で決定、Esc/q でキャンセル"@,
        swap_prompt_second: "hatoba: 並び替え — 2つ目のディレクトリを選択  (↑/↓ j/k で移動、Enter/Space で決定、Esc/q でキャンセル"@,
    }
}

/// The texts of a language.
pub open spec fn texts_of(lang: Language) -> MsgText {
    match lang {
        Language::En => english_text(),
        Language::Ja => japanese_text(),
    }
}

/// The English texts.
pub fn english() -> (m: Msg)
    ensures
        m@ == english_text(),
{
    Msg {
        added: "Added",
        removed: "Removed",
        default_set: "Default set to",
        swapped: "Swapped",
        select_prompt: "hatoba: Select working directory  (↑/↓ j/k to move, Enter/Space to confirm, Esc/q to cancel",
        default_marker: "  (default)",
        remove_prompt: "hatoba: Select directory to remove  (↑/↓ j/k to move, Enter/Space to confirm, Esc/q to cancel",
        default_prompt: "hatoba: Select directory to set as default  (↑/↓ j/k to move, Enter/Space to confirm, Esc/q to cancel",
        lang_prompt: "hatoba: Select language  (↑/↓ j/k to move, Enter/Space to confirm, Esc/q to cancel",
        swap_prompt_first: "hatoba: Swap — select first directory  (↑/↓ j/k to move, Enter/Space to confirm, Esc/q to cancel",
        swap_prompt_second: "hatoba: Swap — select second directory  (↑/↓ j/k to move, Enter/Space to confirm, Esc/q to cancel",
    }
}

/// The Japanese texts.
pub fn japanese() -> (m: Msg)
    ensures
        m@ == japanese_text(),
{
    Msg {
        added: "追加しました",
        removed: "削除しました",
        default_set: "デフォルトを変更しました",
        swapped: "並び替えました",
        select_prompt: "hatoba: 作業ディレクトリを選択  (↑/↓ j/k で移動、Enter/Space で決定、Esc/q でキャンセル",
        default_marker: "  (デフォルト)",
        remove_prompt: "hatoba: 削除するディレクトリを選択  (↑/↓ j/k で移動、Enter/Space で決定、Esc/q でキャンセル",
        default_prompt: "hatoba: デフォルトに設定するディレクトリを選択  (↑/↓ j/k で移動、Enter/Space で決定、Esc/q でキャンセル",
        lang_prompt: "hatoba: 言語を選択  (↑/↓ j/k で移動、Enter/Space で決定、Esc/q でキャンセル",
        swap_prompt_first: "hatoba: 並び替え — 1つ目のディレクトリを選択  (↑/↓ j/k で移動、Enter/Space で決定、Esc/q でキャンセル",
        swap_prompt_second: "hatoba: 並び替え — 2つ目のディレクトリを選択  (↑/↓ j/k で移動、Enter/Space で決定、Esc/q でキャンセル",
    }
}

/// The texts of `lang`.
pub fn get(lang: &Language) -> (m: Msg)
    ensures
        m@ == texts_of(*lang),
{
    match lang {
        Language::En => english(),
        Language::Ja => japanese(),
    }
}

} // verus!
