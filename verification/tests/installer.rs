use im_disperser::editor::{default_size, Data, MainViewEvent, DEFAULT_HEIGHT, DEFAULT_WIDTH};
use im_disperser::installer::installing_page::{InstallingPage, InstallingPageEvent, Subtitle};
use im_disperser::installer::localize::Language;
use im_disperser::installer::wizard::{
    clap_target, vst3_target, AppData, AppEffect, AppEvent, ButtonText, TabPage,
};

fn fresh() -> AppData {
    AppData::new("C:\\VST3".to_string(), "C:\\CLAP".to_string())
}

fn at_page(page: TabPage) -> AppData {
    let mut data = fresh();
    while data.current_page() != page {
        data.event(&AppEvent::NextPage);
    }
    data
}

#[test]
fn language_names() {
    assert_eq!(Language::English.to_string(), "English");
    assert_eq!(Language::SimplifiedChinese.to_string(), "简体中文");
    assert_eq!(Language::English.to_localize_key(), "en-US");
    assert_eq!(Language::SimplifiedChinese.to_localize_key(), "zh-CN");
    assert_eq!(Language::English.toggled(), Language::SimplifiedChinese);
    assert_eq!(Language::SimplifiedChinese.toggled(), Language::English);
}

#[test]
fn installer_starts_on_the_first_page() {
    let data = fresh();
    assert!(!data.install_vst3());
    assert!(!data.install_clap());
    assert_eq!(data.current_page(), TabPage::SelectFormat);
    assert!(!data.show_prev_btn());
    assert!(data.show_next_btn());
    assert!(data.disable_next_btn());
    assert_eq!(data.vst3_path(), "C:\\VST3");
    assert_eq!(data.clap_path(), "C:\\CLAP");
    assert_eq!(data.next_btn_text(), ButtonText::Next);
    assert_eq!(data.lang(), Language::English);
}

#[test]
fn next_is_disabled_while_nothing_is_selected() {
    let mut data = fresh();
    assert_eq!(data.event(&AppEvent::ToggleInstallVst3), vec![]);
    assert!(data.install_vst3());
    assert!(!data.disable_next_btn());
    data.event(&AppEvent::ToggleInstallClap);
    assert!(data.install_clap());
    assert!(!data.disable_next_btn());
    data.event(&AppEvent::ToggleInstallVst3);
    assert!(!data.disable_next_btn());
    data.event(&AppEvent::ToggleInstallClap);
    assert!(data.disable_next_btn());
    assert!(!data.install_vst3() && !data.install_clap());
}

#[test]
fn pages_are_walked_in_order() {
    let mut data = fresh();
    assert_eq!(data.event(&AppEvent::NextPage), vec![AppEffect::EmitUpdateButtons]);
    assert_eq!(data.current_page(), TabPage::SelectPath);
    assert_eq!(data.event(&AppEvent::NextPage), vec![AppEffect::EmitUpdateButtons]);
    assert_eq!(data.current_page(), TabPage::Confirm);
    assert_eq!(
        data.event(&AppEvent::NextPage),
        vec![AppEffect::EmitStartInstallation, AppEffect::EmitUpdateButtons]
    );
    assert_eq!(data.current_page(), TabPage::Installing);
    assert_eq!(data.event(&AppEvent::NextPage), vec![AppEffect::EmitUpdateButtons]);
    assert_eq!(data.current_page(), TabPage::Done);
    assert_eq!(data.event(&AppEvent::NextPage), vec![AppEffect::Exit]);
    assert_eq!(data.current_page(), TabPage::Done);
}

#[test]
fn going_back() {
    let mut data = at_page(TabPage::Confirm);
    assert_eq!(data.event(&AppEvent::PrevPage), vec![AppEffect::EmitUpdateButtons]);
    assert_eq!(data.current_page(), TabPage::SelectPath);
    data.event(&AppEvent::PrevPage);
    assert_eq!(data.current_page(), TabPage::SelectFormat);
    assert_eq!(data.event(&AppEvent::PrevPage), vec![AppEffect::EmitUpdateButtons]);
    assert_eq!(data.current_page(), TabPage::SelectFormat);
}

#[test]
fn buttons_follow_the_page() {
    let expected = [
        (TabPage::SelectFormat, false, true, ButtonText::Next),
        (TabPage::SelectPath, true, true, ButtonText::Next),
        (TabPage::Confirm, true, true, ButtonText::Install),
        (TabPage::Installing, false, false, ButtonText::Next),
        (TabPage::Done, false, true, ButtonText::Done),
    ];
    for (page, prev, next, text) in expected {
        let mut data = at_page(page);
        assert_eq!(data.event(&AppEvent::UpdateButtons), vec![]);
        assert_eq!(data.show_prev_btn(), prev);
        assert_eq!(data.show_next_btn(), next);
        assert_eq!(data.next_btn_text(), text);
        assert_eq!(data.current_page(), page);
    }
    assert_eq!(ButtonText::Next.key(), "next");
    assert_eq!(ButtonText::Install.key(), "install");
    assert_eq!(ButtonText::Done.key(), "done");
}

#[test]
fn paths_are_taken_over() {
    let mut data = fresh();
    assert_eq!(data.event(&AppEvent::UpdateVst3Path("D:\\a".to_string())), vec![]);
    assert_eq!(data.vst3_path(), "D:\\a");
    assert_eq!(data.clap_path(), "C:\\CLAP");
    assert_eq!(data.event(&AppEvent::UpdateClapPath(String::new())), vec![]);
    assert_eq!(data.clap_path(), "");
    assert_eq!(data.vst3_path(), "D:\\a");
}

#[test]
fn installation_writes_the_selected_formats() {
    let mut data = fresh();
    assert_eq!(data.event(&AppEvent::StartInstallation), vec![AppEffect::EmitNextPage]);
    data.event(&AppEvent::ToggleInstallClap);
    assert_eq!(
        data.event(&AppEvent::StartInstallation),
        vec![AppEffect::InstallClap, AppEffect::EmitNextPage]
    );
    data.event(&AppEvent::ToggleInstallVst3);
    assert_eq!(
        data.event(&AppEvent::StartInstallation),
        vec![AppEffect::InstallVst3, AppEffect::InstallClap, AppEffect::EmitNextPage]
    );
    data.event(&AppEvent::ToggleInstallClap);
    assert_eq!(
        data.event(&AppEvent::StartInstallation),
        vec![AppEffect::InstallVst3, AppEffect::EmitNextPage]
    );
    assert_eq!(data.current_page(), TabPage::SelectFormat);
}

#[test]
fn language_switch() {
    let mut data = at_page(TabPage::SelectPath);
    let effects = data.event(&AppEvent::UpdateLanguage(Language::SimplifiedChinese));
    assert_eq!(
        effects,
        vec![AppEffect::SetLocale(Language::SimplifiedChinese), AppEffect::EmitUpdateButtons]
    );
    assert_eq!(data.lang(), Language::SimplifiedChinese);
    assert_eq!(data.next_btn_text(), ButtonText::Done);
    data.event(&AppEvent::UpdateButtons);
    assert_eq!(data.next_btn_text(), ButtonText::Next);
    assert_eq!(data.current_page(), TabPage::SelectPath);
}

#[test]
fn editor_opens_at_its_default_size() {
    assert_eq!(default_size(), (800, 500));
    assert_eq!((DEFAULT_WIDTH, DEFAULT_HEIGHT), (800, 500));
}

#[test]
fn info_panel_toggles() {
    let mut data = Data::new();
    assert!(!data.is_show_info_panel());
    assert_eq!(data.event(&MainViewEvent::ToggleInfoPanel), None);
    assert!(data.is_show_info_panel());
    assert_eq!(data.event(&MainViewEvent::ToggleInfoPanel), None);
    assert!(!data.is_show_info_panel());
}

#[test]
fn open_url_hands_the_address_back() {
    let mut data = Data::new();
    let url = "https://github.com/sout233/godieperser".to_string();
    assert_eq!(data.event(&MainViewEvent::OpenUrl(url.clone())), Some(url));
    assert!(!data.is_show_info_panel());
}

#[test]
fn installing_page_follows_the_installation() {
    let mut page = InstallingPage::new();
    assert_eq!(page.subtitle(), Subtitle::ConfirmInstall);
    assert!(page.show_install_btn());
    page.event(&InstallingPageEvent::Install);
    assert_eq!(page.subtitle(), Subtitle::Installing);
    assert!(!page.show_install_btn());
    page.event(&InstallingPageEvent::Finish);
    assert_eq!(page.subtitle(), Subtitle::InstallFinish);
    assert!(!page.show_install_btn());
    assert_eq!(Subtitle::ConfirmInstall.key(), "confirm-install");
    assert_eq!(Subtitle::Installing.key(), "installing");
    assert_eq!(Subtitle::InstallFinish.key(), "install-finish");
}

#[test]
fn install_targets() {
    assert_eq!(vst3_target(), vec!["im_disperser", "Contents", "im_disperser.vst3"]);
    assert_eq!(clap_target(), vec!["im_disperser", "im_disperser.clap"]);
}
