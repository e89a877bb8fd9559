use vstd::prelude::*;

use crate::input_type::{blank_form, InputParameterString, InputParameters};

verus! {

/// What the parameter input tab reacts to.
#[derive(Debug, Clone)]
pub enum InputTabMessage {
    /// Replace the whole form, as when parameters were loaded or reset to the
    /// design point.
    UpdateParams(Box<InputParameterString>),
    /// Empty every field.
    ClearParams,
    /// One field was edited.
    ValueChanged(InputParameters),
}

/// The parameter input tab: the form as the user is typing it.
#[derive(Debug, Clone)]
pub struct InputTab {
    pub input_strings: InputParameterString,
}

impl InputTab {
    /// A tab whose form is empty.
    pub fn new() -> (r: Self)
        ensures
            r.input_strings@ == blank_form(),
    {
        InputTab { input_strings: InputParameterString::default() }
    }

    /// Applies one message to the form.
    pub fn update(&mut self, message: InputTabMessage)
        ensures
            match message {
                InputTabMessage::UpdateParams(params) => final(self).input_strings == *params,
                InputTabMessage::ClearParams => final(self).input_strings@ == blank_form(),
                InputTabMessage::ValueChanged(edit) => final(self).input_strings@ =~= old(
                    self,
                ).input_strings@.update(edit.slot(), edit.text()),
            },
    {
        match message {
            InputTabMessage::UpdateParams(params) => self.input_strings = *params,
            InputTabMessage::ClearParams => self.input_strings = InputParameterString::default(),
            InputTabMessage::ValueChanged(input_params) => match input_params {
                InputParameters::Ne(value) => self.input_strings.ne = value,
                InputParameters::N1(value) => self.input_strings.n_1 = value,
                InputParameters::Xfh(value) => self.input_strings.x_fh = value,
                InputParameters::Zetad(value) => self.input_strings.zeta_d = value,
                InputParameters::Nhi(value) => self.input_strings.n_hi = value,
                InputParameters::Nli(value) => self.input_strings.n_li = value,
                InputParameters::Nm(value) => self.input_strings.n_m = value,
                InputParameters::Nge(value) => self.input_strings.n_ge = value,
                InputParameters::DPfh(value) => self.input_strings.dp_fh = value,
                InputParameters::DPrh(value) => self.input_strings.dp_rh = value,
                InputParameters::DPej(value) => self.input_strings.dp_ej = value,
                InputParameters::DPcd(value) => self.input_strings.dp_cd = value,
                InputParameters::DPf(value) => self.input_strings.dp_f = value,
                InputParameters::ThetaHu(value) => self.input_strings.theta_hu = value,
                InputParameters::ThetaLu(value) => self.input_strings.theta_lu = value,
                InputParameters::Nh(value) => self.input_strings.n_h = value,
                InputParameters::Nfwpp(value) => self.input_strings.n_fwpp = value,
                InputParameters::Nwpti(value) => self.input_strings.n_fwpti = value,
                InputParameters::Nfwptm(value) => self.input_strings.n_fwptm = value,
                InputParameters::Nfwptg(value) => self.input_strings.n_fwptg = value,
                InputParameters::Tsw1(value) => self.input_strings.t_sw1 = value,
                InputParameters::Nenpp(value) => self.input_strings.ne_npp = value,
                InputParameters::Gcd(value) => self.input_strings.g_cd = value,
                InputParameters::Pc(value) => self.input_strings.p_c = value,
                InputParameters::DTsub(value) => self.input_strings.dt_sub = value,
                InputParameters::DTc(value) => self.input_strings.dt_c = value,
                InputParameters::Ps(value) => self.input_strings.p_s = value,
                InputParameters::DTsw(value) => self.input_strings.dt_sw = value,
                InputParameters::DT(value) => self.input_strings.dt = value,
                InputParameters::DPhz(value) => self.input_strings.dp_hz = value,
                InputParameters::Trh2z(value) => self.input_strings.t_rh2z = value,
                InputParameters::Z(value) => self.input_strings.z = value,
                InputParameters::Zl(value) => self.input_strings.z_l = value,
                InputParameters::Zh(value) => self.input_strings.z_h = value,
                InputParameters::DTfw(value) => self.input_strings.dt_fw = value,
                InputParameters::DPfwpo(value) => self.input_strings.dp_fwpo = value,
                InputParameters::DPcwp(value) => self.input_strings.dp_cwp = value,
            },
        }
    }
}

impl Default for InputTab {
    fn default() -> (r: Self)
        ensures
            r.input_strings@ == blank_form(),
    {
        InputTab::new()
    }
}

} // verus!
