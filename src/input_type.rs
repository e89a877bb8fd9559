use vstd::prelude::*;

verus! {

/// Number of fields on the parameter input form.
pub const PARAMETER_COUNT: usize = 37;

/// One edit of the parameter input form: the field it names and the new text.
#[derive(Debug, Clone)]
pub enum InputParameters {
    Ne(String),
    N1(String),
    Xfh(String),
    Zetad(String),
    Nhi(String),
    Nli(String),
    Nm(String),
    Nge(String),
    DPfh(String),
    DPrh(String),
    DPej(String),
    DPcd(String),
    DPf(String),
    ThetaHu(String),
    ThetaLu(String),
    Nh(String),
    Nfwpp(String),
    Nwpti(String),
    Nfwptm(String),
    Nfwptg(String),
    Tsw1(String),
    Nenpp(String),
    Gcd(String),
    Pc(String),
    DTsub(String),
    DTc(String),
    Ps(String),
    DTsw(String),
    DT(String),
    DPhz(String),
    Trh2z(String),
    Z(String),
    Zl(String),
    Zh(String),
    DTfw(String),
    DPfwpo(String),
    DPcwp(String),
}

impl InputParameters {
    /// Position, in the form's view, of the field that this edit names.
    pub open spec fn slot(&self) -> int {
        match self {
            InputParameters::Ne(_) => 0,
            InputParameters::N1(_) => 1,
            InputParameters::Xfh(_) => 2,
            InputParameters::Zetad(_) => 3,
            InputParameters::Nhi(_) => 4,
            InputParameters::Nli(_) => 5,
            InputParameters::Nm(_) => 6,
            InputParameters::Nge(_) => 7,
            InputParameters::DPfh(_) => 8,
            InputParameters::DPrh(_) => 9,
            InputParameters::DPej(_) => 10,
            InputParameters::DPcd(_) => 11,
            InputParameters::DPf(_) => 12,
            InputParameters::ThetaHu(_) => 13,
            InputParameters::ThetaLu(_) => 14,
            InputParameters::Nh(_) => 15,
            InputParameters::Nfwpp(_) => 16,
            InputParameters::Nwpti(_) => 17,
            InputParameters::Nfwptm(_) => 18,
            InputParameters::Nfwptg(_) => 19,
            InputParameters::Tsw1(_) => 20,
            InputParameters::Nenpp(_) => 21,
            InputParameters::Gcd(_) => 22,
            InputParameters::Pc(_) => 23,
            InputParameters::DTsub(_) => 24,
            InputParameters::DTc(_) => 25,
            InputParameters::Ps(_) => 26,
            InputParameters::DTsw(_) => 27,
            InputParameters::DT(_) => 28,
            InputParameters::DPhz(_) => 29,
            InputParameters::Trh2z(_) => 30,
            InputParameters::Z(_) => 31,
            InputParameters::Zl(_) => 32,
            InputParameters::Zh(_) => 33,
            InputParameters::DTfw(_) => 34,
            InputParameters::DPfwpo(_) => 35,
            InputParameters::DPcwp(_) => 36,
        }
    }

    /// The text that this edit writes.
    pub open spec fn text(&self) -> Seq<char> {
        match self {
            InputParameters::Ne(value) => value@,
            InputParameters::N1(value) => value@,
            InputParameters::Xfh(value) => value@,
            InputParameters::Zetad(value) => value@,
            InputParameters::Nhi(value) => value@,
            InputParameters::Nli(value) => value@,
            InputParameters::Nm(value) => value@,
            InputParameters::Nge(value) => value@,
            InputParameters::DPfh(value) => value@,
            InputParameters::DPrh(value) => value@,
            InputParameters::DPej(value) => value@,
            InputParameters::DPcd(value) => value@,
            InputParameters::DPf(value) => value@,
            InputParameters::ThetaHu(value) => value@,
            InputParameters::ThetaLu(value) => value@,
            InputParameters::Nh(value) => value@,
            InputParameters::Nfwpp(value) => value@,
            InputParameters::Nwpti(value) => value@,
            InputParameters::Nfwptm(value) => value@,
            InputParameters::Nfwptg(value) => value@,
            InputParameters::Tsw1(value) => value@,
            InputParameters::Nenpp(value) => value@,
            InputParameters::Gcd(value) => value@,
            InputParameters::Pc(value) => value@,
            InputParameters::DTsub(value) => value@,
            InputParameters::DTc(value) => value@,
            InputParameters::Ps(value) => value@,
            InputParameters::DTsw(value) => value@,
            InputParameters::DT(value) => value@,
            InputParameters::DPhz(value) => value@,
            InputParameters::Trh2z(value) => value@,
            InputParameters::Z(value) => value@,
            InputParameters::Zl(value) => value@,
            InputParameters::Zh(value) => value@,
            InputParameters::DTfw(value) => value@,
            InputParameters::DPfwpo(value) => value@,
            InputParameters::DPcwp(value) => value@,
        }
    }
}

/// The parameter input form: each design coefficient as the text typed for it.
#[derive(Debug, Clone)]
pub struct InputParameterString {
    /// Electrical output of the plant, MW.
    pub ne: String,
    /// Energy utilisation factor of the primary loop, percent.
    pub n_1: String,
    /// Steam quality at the steam generator outlet, percent.
    pub x_fh: String,
    /// Steam generator blowdown rate, percent.
    pub zeta_d: String,
    /// Internal efficiency of the high-pressure turbine, percent.
    pub n_hi: String,
    /// Internal efficiency of the low-pressure turbine, percent.
    pub n_li: String,
    /// Mechanical efficiency of the turbine set, percent.
    pub n_m: String,
    /// Generator efficiency, percent.
    pub n_ge: String,
    /// Live-steam pressure loss, percent of steam generator pressure.
    pub dp_fh: String,
    /// Reheat steam pressure loss, percent of HP exhaust pressure.
    pub dp_rh: String,
    /// Extraction steam pressure loss, percent.
    pub dp_ej: String,
    /// LP turbine exhaust pressure loss, percent of condenser pressure.
    pub dp_cd: String,
    /// LP turbine inlet flow loss, percent of inlet pressure.
    pub dp_f: String,
    /// Outlet terminal difference of the high-pressure heaters, degrees C.
    pub theta_hu: String,
    /// Outlet terminal difference of the low-pressure heaters, degrees C.
    pub theta_lu: String,
    /// Heater efficiency, percent.
    pub n_h: String,
    /// Feedwater pump efficiency, percent.
    pub n_fwpp: String,
    /// Internal efficiency of the feedwater pump turbine, percent.
    pub n_fwpti: String,
    /// Mechanical efficiency of the feedwater pump turbine, percent.
    pub n_fwptm: String,
    /// Gearbox efficiency of the feedwater pump turbine, percent.
    pub n_fwptg: String,
    /// Cooling water inlet temperature, degrees C.
    pub t_sw1: String,
    /// Assumed plant efficiency, percent (iteration seed).
    pub ne_npp: String,
    /// Assumed condenser condensate flow, kg/s (iteration seed).
    pub g_cd: String,
    /// Reactor coolant system pressure, MPa.
    pub p_c: String,
    /// Subcooling of the coolant at the reactor outlet, degrees C.
    pub dt_sub: String,
    /// Coolant temperature rise across the reactor, degrees C.
    pub dt_c: String,
    /// Steam generator saturation pressure, MPa.
    pub p_s: String,
    /// Cooling water temperature rise in the condenser, degrees C.
    pub dt_sw: String,
    /// Condenser terminal temperature difference, degrees C.
    pub dt: String,
    /// HP exhaust pressure over HP inlet pressure, percent.
    pub dp_hz: String,
    /// Live-steam temperature minus second reheater outlet temperature, degrees C.
    pub t_rh2z: String,
    /// Number of regenerative stages.
    pub z: String,
    /// Number of low-pressure feedwater heaters.
    pub z_l: String,
    /// Number of high-pressure feedwater heaters.
    pub z_h: String,
    /// Actual over optimal feedwater temperature, percent.
    pub dt_fw: String,
    /// Feedwater pump outlet pressure, multiple of steam generator pressure.
    pub dp_fwpo: String,
    /// Condensate pump outlet pressure, multiple of deaerator pressure.
    pub dp_cwp: String,
}

impl View for InputParameterString {
    type V = Seq<Seq<char>>;

    /// The texts of the fields, in declaration order.
    open spec fn view(&self) -> Seq<Seq<char>> {
        seq![
            self.ne@,
            self.n_1@,
            self.x_fh@,
            self.zeta_d@,
            self.n_hi@,
            self.n_li@,
            self.n_m@,
            self.n_ge@,
            self.dp_fh@,
            self.dp_rh@,
            self.dp_ej@,
            self.dp_cd@,
            self.dp_f@,
            self.theta_hu@,
            self.theta_lu@,
            self.n_h@,
            self.n_fwpp@,
            self.n_fwpti@,
            self.n_fwptm@,
            self.n_fwptg@,
            self.t_sw1@,
            self.ne_npp@,
            self.g_cd@,
            self.p_c@,
            self.dt_sub@,
            self.dt_c@,
            self.p_s@,
            self.dt_sw@,
            self.dt@,
            self.dp_hz@,
            self.t_rh2z@,
            self.z@,
            self.z_l@,
            self.z_h@,
            self.dt_fw@,
            self.dp_fwpo@,
            self.dp_cwp@,
        ]
    }
}

/// The view of a form whose fields are all empty.
pub open spec fn blank_form() -> Seq<Seq<char>> {
    Seq::new(PARAMETER_COUNT as nat, |_i: int| Seq::<char>::empty())
}

impl Default for InputParameterString {
    fn default() -> (r: Self)
        ensures
            r@ == blank_form(),
    {
        let r = InputParameterString {
            ne: String::new(),
            n_1: String::new(),
            x_fh: String::new(),
            zeta_d: String::new(),
            n_hi: String::new(),
            n_li: String::new(),
            n_m: String::new(),
            n_ge: String::new(),
            dp_fh: String::new(),
            dp_rh: String::new(),
            dp_ej: String::new(),
            dp_cd: String::new(),
            dp_f: String::new(),
            theta_hu: String::new(),
            theta_lu: String::new(),
            n_h: String::new(),
            n_fwpp: String::new(),
            n_fwpti: String::new(),
            n_fwptm: String::new(),
            n_fwptg: String::new(),
            t_sw1: String::new(),
            ne_npp: String::new(),
            g_cd: String::new(),
            p_c: String::new(),
            dt_sub: String::new(),
            dt_c: String::new(),
            p_s: String::new(),
            dt_sw: String::new(),
            dt: String::new(),
            dp_hz: String::new(),
            t_rh2z: String::new(),
            z: String::new(),
            z_l: String::new(),
            z_h: String::new(),
            dt_fw: String::new(),
            dp_fwpo: String::new(),
            dp_cwp: String::new(),
        };
        assert(r@ =~= blank_form());
        r
    }
}

} // verus!
