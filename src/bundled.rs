//! The Windows zone table that the library ships, and the lookups of
//! [`WindowsTz`] over it.

use vstd::prelude::*;
use crate::dataset::{dataset_of, row_opt_view, str_opt_view, DatasetError, WindowsZones, WindowsZonesView};
use crate::tz::IanaTz;
use crate::windows::{lookup, reverse, Error, WindowsTz};

verus! {

/// The Unicode CLDR `windowsZones` document, kept in parts of a few dozen
/// lines.
const PART_1: &'static str = r#"<?xml version="1.0" encoding="UTF-8" ?>
<supplementalData>
	<windowsZones>
		<mapTimezones otherVersion="7e11800" typeVersion="2021a">
			<mapZone other="Dateline Standard Time" territory="001" type="Etc/GMT+12"/>
			<mapZone other="Dateline Standard Time" territory="ZZ" type="Etc/GMT+12"/>

			<mapZone other="UTC-11" territory="001" type="Etc/GMT+11"/>
			<mapZone other="UTC-11" territory="AS" type="Pacific/Pago_Pago"/>
			<mapZone other="UTC-11" territory="NU" type="Pacific/Niue"/>
			<mapZone other="UTC-11" territory="UM" type="Pacific/Midway"/>
			<mapZone other="UTC-11" territory="ZZ" type="Etc/GMT+11"/>

			<mapZone other="Aleutian Standard Time" territory="001" type="America/Adak"/>
			<mapZone other="Aleutian Standard Time" territory="US" type="America/Adak"/>

			<mapZone other="Hawaiian Standard Time" territory="001" type="Pacific/Honolulu"/>
			<mapZone other="Hawaiian Standard Time" territory="CK" type="Pacific/Rarotonga"/>
			<mapZone other="Hawaiian Standard Time" territory="PF" type="Pacific/Tahiti"/>
			<mapZone other="Hawaiian Standard Time" territory="UM" type="Pacific/Johnston"/>
			<mapZone other="Hawaiian Standard Time" territory="US" type="Pacific/Honolulu"/>
			<mapZone other="Hawaiian Standard Time" territory="ZZ" type="Etc/GMT+10"/>

"#;

const PART_2: &'static str = r#"			<mapZone other="Marquesas Standard Time" territory="001" type="Pacific/Marquesas"/>
			<mapZone other="Marquesas Standard Time" territory="PF" type="Pacific/Marquesas"/>

			<mapZone other="Alaskan Standard Time" territory="001" type="America/Anchorage"/>
			<mapZone other="Alaskan Standard Time" territory="US" type="America/Anchorage America/Juneau America/Metlakatla America/Nome America/Sitka America/Yakutat"/>

			<mapZone other="UTC-09" territory="001" type="Etc/GMT+9"/>
			<mapZone other="UTC-09" territory="PF" type="Pacific/Gambier"/>
			<mapZone other="UTC-09" territory="ZZ" type="Etc/GMT+9"/>

			<mapZone other="Pacific Standard Time (Mexico)" territory="001" type="America/Tijuana"/>
			<mapZone other="Pacific Standard Time (Mexico)" territory="MX" type="America/Tijuana America/Santa_Isabel"/>

			<mapZone other="UTC-08" territory="001" type="Etc/GMT+8"/>
			<mapZone other="UTC-08" territory="PN" type="Pacific/Pitcairn"/>
			<mapZone other="UTC-08" territory="ZZ" type="Etc/GMT+8"/>

			<mapZone other="Pacific Standard Time" territory="001" type="America/Los_Angeles"/>
			<mapZone other="Pacific Standard Time" territory="CA" type="America/Vancouver"/>
			<mapZone other="Pacific Standard Time" territory="US" type="America/Los_Angeles"/>
			<mapZone other="Pacific Standard Time" territory="ZZ" type="PST8PDT"/>

"#;

const PART_3: &'static str = r#"			<mapZone other="US Mountain Standard Time" territory="001" type="America/Phoenix"/>
			<mapZone other="US Mountain Standard Time" territory="CA" type="America/Creston America/Dawson_Creek America/Fort_Nelson"/>
			<mapZone other="US Mountain Standard Time" territory="MX" type="America/Hermosillo"/>
			<mapZone other="US Mountain Standard Time" territory="US" type="America/Phoenix"/>
			<mapZone other="US Mountain Standard Time" territory="ZZ" type="Etc/GMT+7"/>

			<mapZone other="Mountain Standard Time (Mexico)" territory="001" type="America/Mazatlan"/>
			<mapZone other="Mountain Standard Time (Mexico)" territory="MX" type="America/Mazatlan"/>

			<mapZone other="Mountain Standard Time" territory="001" type="America/Denver"/>
			<mapZone other="Mountain Standard Time" territory="CA" type="America/Edmonton America/Cambridge_Bay America/Inuvik America/Yellowknife"/>
			<mapZone other="Mountain Standard Time" territory="MX" type="America/Ciudad_Juarez"/>
			<mapZone other="Mountain Standard Time" territory="US" type="America/Denver America/Boise"/>
			<mapZone other="Mountain Standard Time" territory="ZZ" type="MST7MDT"/>

			<mapZone other="Yukon Standard Time" territory="001" type="America/Whitehorse"/>
			<mapZone other="Yukon Standard Time" territory="CA" type="America/Whitehorse America/Dawson"/>

			<mapZone other="Central America Standard Time" territory="001" type="America/Guatemala"/>
			<mapZone other="Central America Standard Time" territory="BZ" type="America/Belize"/>
			<mapZone other="Central America Standard Time" territory="CR" type="America/Costa_Rica"/>
			<mapZone other="Central America Standard Time" territory="EC" type="Pacific/Galapagos"/>
			<mapZone other="Central America Standard Time" territory="GT" type="America/Guatemala"/>
			<mapZone other="Central America Standard Time" territory="HN" type="America/Tegucigalpa"/>
			<mapZone other="Central America Standard Time" territory="NI" type="America/Managua"/>
			<mapZone other="Central America Standard Time" territory="SV" type="America/El_Salvador"/>
			<mapZone other="Central America Standard Time" territory="ZZ" type="Etc/GMT+6"/>

"#;

const PART_4: &'static str = r#"			<mapZone other="Central Standard Time" territory="001" type="America/Chicago"/>
			<mapZone other="Central Standard Time" territory="CA" type="America/Winnipeg America/Rainy_River America/Rankin_Inlet America/Resolute"/>
			<mapZone other="Central Standard Time" territory="MX" type="America/Matamoros America/Ojinaga"/>
			<mapZone other="Central Standard Time" territory="US" type="America/Chicago America/Indiana/Knox America/Indiana/Tell_City America/Menominee America/North_Dakota/Beulah America/North_Dakota/Center America/North_Dakota/New_Salem"/>
			<mapZone other="Central Standard Time" territory="ZZ" type="CST6CDT"/>

			<mapZone other="Easter Island Standard Time" territory="001" type="Pacific/Easter"/>
			<mapZone other="Easter Island Standard Time" territory="CL" type="Pacific/Easter"/>

			<mapZone other="Central Standard Time (Mexico)" territory="001" type="America/Mexico_City"/>
			<mapZone other="Central Standard Time (Mexico)" territory="MX" type="America/Mexico_City America/Bahia_Banderas America/Merida America/Monterrey America/Chihuahua"/>

			<mapZone other="Canada Central Standard Time" territory="001" type="America/Regina"/>
			<mapZone other="Canada Central Standard Time" territory="CA" type="America/Regina America/Swift_Current"/>

			<mapZone other="SA Pacific Standard Time" territory="001" type="America/Bogota"/>
			<mapZone other="SA Pacific Standard Time" territory="BR" type="America/Rio_Branco America/Eirunepe"/>
			<mapZone other="SA Pacific Standard Time" territory="CA" type="America/Coral_Harbour"/>
			<mapZone other="SA Pacific Standard Time" territory="CO" type="America/Bogota"/>
			<mapZone other="SA Pacific Standard Time" territory="EC" type="America/Guayaquil"/>
			<mapZone other="SA Pacific Standard Time" territory="JM" type="America/Jamaica"/>
			<mapZone other="SA Pacific Standard Time" territory="KY" type="America/Cayman"/>
			<mapZone other="SA Pacific Standard Time" territory="PA" type="America/Panama"/>
			<mapZone other="SA Pacific Standard Time" territory="PE" type="America/Lima"/>
			<mapZone other="SA Pacific Standard Time" territory="ZZ" type="Etc/GMT+5"/>

"#;

const PART_5: &'static str = r#"			<mapZone other="Eastern Standard Time (Mexico)" territory="001" type="America/Cancun"/>
			<mapZone other="Eastern Standard Time (Mexico)" territory="MX" type="America/Cancun"/>

			<mapZone other="Eastern Standard Time" territory="001" type="America/New_York"/>
			<mapZone other="Eastern Standard Time" territory="BS" type="America/Nassau"/>
			<mapZone other="Eastern Standard Time" territory="CA" type="America/Toronto America/Iqaluit America/Montreal America/Nipigon America/Pangnirtung America/Thunder_Bay"/>
			<mapZone other="Eastern Standard Time" territory="US" type="America/New_York America/Detroit America/Indiana/Petersburg America/Indiana/Vincennes America/Indiana/Winamac America/Kentucky/Monticello America/Louisville"/>
			<mapZone other="Eastern Standard Time" territory="ZZ" type="EST5EDT"/>

			<mapZone other="Haiti Standard Time" territory="001" type="America/Port-au-Prince"/>
			<mapZone other="Haiti Standard Time" territory="HT" type="America/Port-au-Prince"/>

			<mapZone other="Cuba Standard Time" territory="001" type="America/Havana"/>
			<mapZone other="Cuba Standard Time" territory="CU" type="America/Havana"/>

			<mapZone other="US Eastern Standard Time" territory="001" type="America/Indianapolis"/>
			<mapZone other="US Eastern Standard Time" territory="US" type="America/Indianapolis America/Indiana/Marengo America/Indiana/Vevay"/>

			<mapZone other="Turks And Caicos Standard Time" territory="001" type="America/Grand_Turk"/>
			<mapZone other="Turks And Caicos Standard Time" territory="TC" type="America/Grand_Turk"/>

"#;

const PART_6: &'static str = r#"			<mapZone other="Paraguay Standard Time" territory="001" type="America/Asuncion"/>
			<mapZone other="Paraguay Standard Time" territory="PY" type="America/Asuncion"/>

			<mapZone other="Atlantic Standard Time" territory="001" type="America/Halifax"/>
			<mapZone other="Atlantic Standard Time" territory="BM" type="Atlantic/Bermuda"/>
			<mapZone other="Atlantic Standard Time" territory="CA" type="America/Halifax America/Glace_Bay America/Goose_Bay America/Moncton"/>
			<mapZone other="Atlantic Standard Time" territory="GL" type="America/Thule"/>

			<mapZone other="Venezuela Standard Time" territory="001" type="America/Caracas"/>
			<mapZone other="Venezuela Standard Time" territory="VE" type="America/Caracas"/>

			<mapZone other="Central Brazilian Standard Time" territory="001" type="America/Cuiaba"/>
			<mapZone other="Central Brazilian Standard Time" territory="BR" type="America/Cuiaba America/Campo_Grande"/>

			<mapZone other="SA Western Standard Time" territory="001" type="America/La_Paz"/>
			<mapZone other="SA Western Standard Time" territory="AG" type="America/Antigua"/>
			<mapZone other="SA Western Standard Time" territory="AI" type="America/Anguilla"/>
			<mapZone other="SA Western Standard Time" territory="AW" type="America/Aruba"/>
			<mapZone other="SA Western Standard Time" territory="BB" type="America/Barbados"/>
			<mapZone other="SA Western Standard Time" territory="BL" type="America/St_Barthelemy"/>
			<mapZone other="SA Western Standard Time" territory="BO" type="America/La_Paz"/>
			<mapZone other="SA Western Standard Time" territory="BQ" type="America/Kralendijk"/>
			<mapZone other="SA Western Standard Time" territory="BR" type="America/Manaus America/Boa_Vista America/Porto_Velho"/>
			<mapZone other="SA Western Standard Time" territory="CA" type="America/Blanc-Sablon"/>
			<mapZone other="SA Western Standard Time" territory="CW" type="America/Curacao"/>
			<mapZone other="SA Western Standard Time" territory="DM" type="America/Dominica"/>
			<mapZone other="SA Western Standard Time" territory="DO" type="America/Santo_Domingo"/>
			<mapZone other="SA Western Standard Time" territory="GD" type="America/Grenada"/>
			<mapZone other="SA Western Standard Time" territory="GP" type="America/Guadeloupe"/>
			<mapZone other="SA Western Standard Time" territory="GY" type="America/Guyana"/>
			<mapZone other="SA Western Standard Time" territory="KN" type="America/St_Kitts"/>
			<mapZone other="SA Western Standard Time" territory="LC" type="America/St_Lucia"/>
			<mapZone other="SA Western Standard Time" territory="MF" type="America/Marigot"/>
			<mapZone other="SA Western Standard Time" territory="MQ" type="America/Martinique"/>
			<mapZone other="SA Western Standard Time" territory="MS" type="America/Montserrat"/>
			<mapZone other="SA Western Standard Time" territory="PR" type="America/Puerto_Rico"/>
			<mapZone other="SA Western Standard Time" territory="SX" type="America/Lower_Princes"/>
			<mapZone other="SA Western Standard Time" territory="TT" type="America/Port_of_Spain"/>
			<mapZone other="SA Western Standard Time" territory="VC" type="America/St_Vincent"/>
			<mapZone other="SA Western Standard Time" territory="VG" type="America/Tortola"/>
			<mapZone other="SA Western Standard Time" territory="VI" type="America/St_Thomas"/>
			<mapZone other="SA Western Standard Time" territory="ZZ" type="Etc/GMT+4"/>

"#;

const PART_7: &'static str = r#"			<mapZone other="Pacific SA Standard Time" territory="001" type="America/Santiago"/>
			<mapZone other="Pacific SA Standard Time" territory="CL" type="America/Santiago"/>

			<mapZone other="Newfoundland Standard Time" territory="001" type="America/St_Johns"/>
			<mapZone other="Newfoundland Standard Time" territory="CA" type="America/St_Johns"/>

			<mapZone other="Tocantins Standard Time" territory="001" type="America/Araguaina"/>
			<mapZone other="Tocantins Standard Time" territory="BR" type="America/Araguaina"/>

			<mapZone other="E. South America Standard Time" territory="001" type="America/Sao_Paulo"/>
			<mapZone other="E. South America Standard Time" territory="BR" type="America/Sao_Paulo"/>

			<mapZone other="SA Eastern Standard Time" territory="001" type="America/Cayenne"/>
			<mapZone other="SA Eastern Standard Time" territory="AQ" type="Antarctica/Rothera Antarctica/Palmer"/>
			<mapZone other="SA Eastern Standard Time" territory="BR" type="America/Fortaleza America/Belem America/Maceio America/Recife America/Santarem"/>
			<mapZone other="SA Eastern Standard Time" territory="FK" type="Atlantic/Stanley"/>
			<mapZone other="SA Eastern Standard Time" territory="GF" type="America/Cayenne"/>
			<mapZone other="SA Eastern Standard Time" territory="SR" type="America/Paramaribo"/>
			<mapZone other="SA Eastern Standard Time" territory="ZZ" type="Etc/GMT+3"/>

"#;

const PART_8: &'static str = r#"			<mapZone other="Argentina Standard Time" territory="001" type="America/Buenos_Aires"/>
			<mapZone other="Argentina Standard Time" territory="AR" type="America/Buenos_Aires America/Argentina/La_Rioja America/Argentina/Rio_Gallegos America/Argentina/Salta America/Argentina/San_Juan America/Argentina/San_Luis America/Argentina/Tucuman America/Argentina/Ushuaia America/Catamarca America/Cordoba America/Jujuy America/Mendoza"/>

			<mapZone other="Greenland Standard Time" territory="001" type="America/Godthab"/>
			<mapZone other="Greenland Standard Time" territory="GL" type="America/Godthab"/>

			<mapZone other="Montevideo Standard Time" territory="001" type="America/Montevideo"/>
			<mapZone other="Montevideo Standard Time" territory="UY" type="America/Montevideo"/>

			<mapZone other="Magallanes Standard Time" territory="001" type="America/Punta_Arenas"/>
			<mapZone other="Magallanes Standard Time" territory="CL" type="America/Punta_Arenas"/>

			<mapZone other="Saint Pierre Standard Time" territory="001" type="America/Miquelon"/>
			<mapZone other="Saint Pierre Standard Time" territory="PM" type="America/Miquelon"/>

			<mapZone other="Bahia Standard Time" territory="001" type="America/Bahia"/>
			<mapZone other="Bahia Standard Time" territory="BR" type="America/Bahia"/>

			<mapZone other="UTC-02" territory="001" type="Etc/GMT+2"/>
			<mapZone other="UTC-02" territory="BR" type="America/Noronha"/>
			<mapZone other="UTC-02" territory="GS" type="Atlantic/South_Georgia"/>
			<mapZone other="UTC-02" territory="ZZ" type="Etc/GMT+2"/>

"#;

const PART_9: &'static str = r#"			<mapZone other="Azores Standard Time" territory="001" type="Atlantic/Azores"/>
			<mapZone other="Azores Standard Time" territory="GL" type="America/Scoresbysund"/>
			<mapZone other="Azores Standard Time" territory="PT" type="Atlantic/Azores"/>

			<mapZone other="Cape Verde Standard Time" territory="001" type="Atlantic/Cape_Verde"/>
			<mapZone other="Cape Verde Standard Time" territory="CV" type="Atlantic/Cape_Verde"/>
			<mapZone other="Cape Verde Standard Time" territory="ZZ" type="Etc/GMT+1"/>

			<mapZone other="UTC" territory="001" type="Etc/UTC"/>
			<mapZone other="UTC" territory="ZZ" type="Etc/UTC Etc/GMT"/>

			<mapZone other="GMT Standard Time" territory="001" type="Europe/London"/>
			<mapZone other="GMT Standard Time" territory="ES" type="Atlantic/Canary"/>
			<mapZone other="GMT Standard Time" territory="FO" type="Atlantic/Faeroe"/>
			<mapZone other="GMT Standard Time" territory="GB" type="Europe/London"/>
			<mapZone other="GMT Standard Time" territory="GG" type="Europe/Guernsey"/>
			<mapZone other="GMT Standard Time" territory="IE" type="Europe/Dublin"/>
			<mapZone other="GMT Standard Time" territory="IM" type="Europe/Isle_of_Man"/>
			<mapZone other="GMT Standard Time" territory="JE" type="Europe/Jersey"/>
			<mapZone other="GMT Standard Time" territory="PT" type="Europe/Lisbon Atlantic/Madeira"/>

"#;

const PART_10: &'static str = r#"			<mapZone other="Greenwich Standard Time" territory="001" type="Atlantic/Reykjavik"/>
			<mapZone other="Greenwich Standard Time" territory="BF" type="Africa/Ouagadougou"/>
			<mapZone other="Greenwich Standard Time" territory="CI" type="Africa/Abidjan"/>
			<mapZone other="Greenwich Standard Time" territory="GH" type="Africa/Accra"/>
			<mapZone other="Greenwich Standard Time" territory="GL" type="America/Danmarkshavn"/>
			<mapZone other="Greenwich Standard Time" territory="GM" type="Africa/Banjul"/>
			<mapZone other="Greenwich Standard Time" territory="GN" type="Africa/Conakry"/>
			<mapZone other="Greenwich Standard Time" territory="GW" type="Africa/Bissau"/>
			<mapZone other="Greenwich Standard Time" territory="IS" type="Atlantic/Reykjavik"/>
			<mapZone other="Greenwich Standard Time" territory="LR" type="Africa/Monrovia"/>
			<mapZone other="Greenwich Standard Time" territory="ML" type="Africa/Bamako"/>
			<mapZone other="Greenwich Standard Time" territory="MR" type="Africa/Nouakchott"/>
			<mapZone other="Greenwich Standard Time" territory="SH" type="Atlantic/St_Helena"/>
			<mapZone other="Greenwich Standard Time" territory="SL" type="Africa/Freetown"/>
			<mapZone other="Greenwich Standard Time" territory="SN" type="Africa/Dakar"/>
			<mapZone other="Greenwich Standard Time" territory="TG" type="Africa/Lome"/>

			<mapZone other="Sao Tome Standard Time" territory="001" type="Africa/Sao_Tome"/>
			<mapZone other="Sao Tome Standard Time" territory="ST" type="Africa/Sao_Tome"/>

"#;

const PART_11: &'static str = r#"			<mapZone other="Morocco Standard Time" territory="001" type="Africa/Casablanca"/>
			<mapZone other="Morocco Standard Time" territory="EH" type="Africa/El_Aaiun"/>
			<mapZone other="Morocco Standard Time" territory="MA" type="Africa/Casablanca"/>

			<mapZone other="W. Europe Standard Time" territory="001" type="Europe/Berlin"/>
			<mapZone other="W. Europe Standard Time" territory="AD" type="Europe/Andorra"/>
			<mapZone other="W. Europe Standard Time" territory="AT" type="Europe/Vienna"/>
			<mapZone other="W. Europe Standard Time" territory="CH" type="Europe/Zurich"/>
			<mapZone other="W. Europe Standard Time" territory="DE" type="Europe/Berlin Europe/Busingen"/>
			<mapZone other="W. Europe Standard Time" territory="GI" type="Europe/Gibraltar"/>
			<mapZone other="W. Europe Standard Time" territory="IT" type="Europe/Rome"/>
			<mapZone other="W. Europe Standard Time" territory="LI" type="Europe/Vaduz"/>
			<mapZone other="W. Europe Standard Time" territory="LU" type="Europe/Luxembourg"/>
			<mapZone other="W. Europe Standard Time" territory="MC" type="Europe/Monaco"/>
			<mapZone other="W. Europe Standard Time" territory="MT" type="Europe/Malta"/>
			<mapZone other="W. Europe Standard Time" territory="NL" type="Europe/Amsterdam"/>
			<mapZone other="W. Europe Standard Time" territory="NO" type="Europe/Oslo"/>
			<mapZone other="W. Europe Standard Time" territory="SE" type="Europe/Stockholm"/>
			<mapZone other="W. Europe Standard Time" territory="SJ" type="Arctic/Longyearbyen"/>
			<mapZone other="W. Europe Standard Time" territory="SM" type="Europe/San_Marino"/>
			<mapZone other="W. Europe Standard Time" territory="VA" type="Europe/Vatican"/>

"#;

const PART_12: &'static str = r#"			<mapZone other="Central Europe Standard Time" territory="001" type="Europe/Budapest"/>
			<mapZone other="Central Europe Standard Time" territory="AL" type="Europe/Tirane"/>
			<mapZone other="Central Europe Standard Time" territory="CZ" type="Europe/Prague"/>
			<mapZone other="Central Europe Standard Time" territory="HU" type="Europe/Budapest"/>
			<mapZone other="Central Europe Standard Time" territory="ME" type="Europe/Podgorica"/>
			<mapZone other="Central Europe Standard Time" territory="RS" type="Europe/Belgrade"/>
			<mapZone other="Central Europe Standard Time" territory="SI" type="Europe/Ljubljana"/>
			<mapZone other="Central Europe Standard Time" territory="SK" type="Europe/Bratislava"/>

			<mapZone other="Romance Standard Time" territory="001" type="Europe/Paris"/>
			<mapZone other="Romance Standard Time" territory="BE" type="Europe/Brussels"/>
			<mapZone other="Romance Standard Time" territory="DK" type="Europe/Copenhagen"/>
			<mapZone other="Romance Standard Time" territory="ES" type="Europe/Madrid Africa/Ceuta"/>
			<mapZone other="Romance Standard Time" territory="FR" type="Europe/Paris"/>

			<mapZone other="Central European Standard Time" territory="001" type="Europe/Warsaw"/>
			<mapZone other="Central European Standard Time" territory="BA" type="Europe/Sarajevo"/>
			<mapZone other="Central European Standard Time" territory="HR" type="Europe/Zagreb"/>
			<mapZone other="Central European Standard Time" territory="MK" type="Europe/Skopje"/>
			<mapZone other="Central European Standard Time" territory="PL" type="Europe/Warsaw"/>

"#;

const PART_13: &'static str = r#"			<mapZone other="W. Central Africa Standard Time" territory="001" type="Africa/Lagos"/>
			<mapZone other="W. Central Africa Standard Time" territory="AO" type="Africa/Luanda"/>
			<mapZone other="W. Central Africa Standard Time" territory="BJ" type="Africa/Porto-Novo"/>
			<mapZone other="W. Central Africa Standard Time" territory="CD" type="Africa/Kinshasa"/>
			<mapZone other="W. Central Africa Standard Time" territory="CF" type="Africa/Bangui"/>
			<mapZone other="W. Central Africa Standard Time" territory="CG" type="Africa/Brazzaville"/>
			<mapZone other="W. Central Africa Standard Time" territory="CM" type="Africa/Douala"/>
			<mapZone other="W. Central Africa Standard Time" territory="DZ" type="Africa/Algiers"/>
			<mapZone other="W. Central Africa Standard Time" territory="GA" type="Africa/Libreville"/>
			<mapZone other="W. Central Africa Standard Time" territory="GQ" type="Africa/Malabo"/>
			<mapZone other="W. Central Africa Standard Time" territory="NE" type="Africa/Niamey"/>
			<mapZone other="W. Central Africa Standard Time" territory="NG" type="Africa/Lagos"/>
			<mapZone other="W. Central Africa Standard Time" territory="TD" type="Africa/Ndjamena"/>
			<mapZone other="W. Central Africa Standard Time" territory="TN" type="Africa/Tunis"/>
			<mapZone other="W. Central Africa Standard Time" territory="ZZ" type="Etc/GMT-1"/>

			<mapZone other="Jordan Standard Time" territory="001" type="Asia/Amman"/>
			<mapZone other="Jordan Standard Time" territory="JO" type="Asia/Amman"/>

			<mapZone other="GTB Standard Time" territory="001" type="Europe/Bucharest"/>
			<mapZone other="GTB Standard Time" territory="CY" type="Asia/Famagusta Asia/Nicosia"/>
			<mapZone other="GTB Standard Time" territory="GR" type="Europe/Athens"/>
			<mapZone other="GTB Standard Time" territory="RO" type="Europe/Bucharest"/>

"#;

const PART_14: &'static str = r#"			<mapZone other="Middle East Standard Time" territory="001" type="Asia/Beirut"/>
			<mapZone other="Middle East Standard Time" territory="LB" type="Asia/Beirut"/>

			<mapZone other="Egypt Standard Time" territory="001" type="Africa/Cairo"/>
			<mapZone other="Egypt Standard Time" territory="EG" type="Africa/Cairo"/>

			<mapZone other="E. Europe Standard Time" territory="001" type="Europe/Chisinau"/>
			<mapZone other="E. Europe Standard Time" territory="MD" type="Europe/Chisinau"/>

			<mapZone other="Syria Standard Time" territory="001" type="Asia/Damascus"/>
			<mapZone other="Syria Standard Time" territory="SY" type="Asia/Damascus"/>

			<mapZone other="West Bank Standard Time" territory="001" type="Asia/Hebron"/>
			<mapZone other="West Bank Standard Time" territory="PS" type="Asia/Hebron Asia/Gaza"/>

			<mapZone other="South Africa Standard Time" territory="001" type="Africa/Johannesburg"/>
			<mapZone other="South Africa Standard Time" territory="BI" type="Africa/Bujumbura"/>
			<mapZone other="South Africa Standard Time" territory="BW" type="Africa/Gaborone"/>
			<mapZone other="South Africa Standard Time" territory="CD" type="Africa/Lubumbashi"/>
			<mapZone other="South Africa Standard Time" territory="LS" type="Africa/Maseru"/>
			<mapZone other="South Africa Standard Time" territory="MW" type="Africa/Blantyre"/>
			<mapZone other="South Africa Standard Time" territory="MZ" type="Africa/Maputo"/>
			<mapZone other="South Africa Standard Time" territory="RW" type="Africa/Kigali"/>
			<mapZone other="South Africa Standard Time" territory="SZ" type="Africa/Mbabane"/>
			<mapZone other="South Africa Standard Time" territory="ZA" type="Africa/Johannesburg"/>
			<mapZone other="South Africa Standard Time" territory="ZM" type="Africa/Lusaka"/>
			<mapZone other="South Africa Standard Time" territory="ZW" type="Africa/Harare"/>
			<mapZone other="South Africa Standard Time" territory="ZZ" type="Etc/GMT-2"/>

"#;

const PART_15: &'static str = r#"			<mapZone other="FLE Standard Time" territory="001" type="Europe/Kiev"/>
			<mapZone other="FLE Standard Time" territory="AX" type="Europe/Mariehamn"/>
			<mapZone other="FLE Standard Time" territory="BG" type="Europe/Sofia"/>
			<mapZone other="FLE Standard Time" territory="EE" type="Europe/Tallinn"/>
			<mapZone other="FLE Standard Time" territory="FI" type="Europe/Helsinki"/>
			<mapZone other="FLE Standard Time" territory="LT" type="Europe/Vilnius"/>
			<mapZone other="FLE Standard Time" territory="LV" type="Europe/Riga"/>
			<mapZone other="FLE Standard Time" territory="UA" type="Europe/Kiev Europe/Uzhgorod Europe/Zaporozhye"/>

			<mapZone other="Israel Standard Time" territory="001" type="Asia/Jerusalem"/>
			<mapZone other="Israel Standard Time" territory="IL" type="Asia/Jerusalem"/>

			<mapZone other="South Sudan Standard Time" territory="001" type="Africa/Juba"/>
			<mapZone other="South Sudan Standard Time" territory="SS" type="Africa/Juba"/>

			<mapZone other="Kaliningrad Standard Time" territory="001" type="Europe/Kaliningrad"/>
			<mapZone other="Kaliningrad Standard Time" territory="RU" type="Europe/Kaliningrad"/>

			<mapZone other="Sudan Standard Time" territory="001" type="Africa/Khartoum"/>
			<mapZone other="Sudan Standard Time" territory="SD" type="Africa/Khartoum"/>

"#;

const PART_16: &'static str = r#"			<mapZone other="Libya Standard Time" territory="001" type="Africa/Tripoli"/>
			<mapZone other="Libya Standard Time" territory="LY" type="Africa/Tripoli"/>

			<mapZone other="Namibia Standard Time" territory="001" type="Africa/Windhoek"/>
			<mapZone other="Namibia Standard Time" territory="NA" type="Africa/Windhoek"/>

			<mapZone other="Arabic Standard Time" territory="001" type="Asia/Baghdad"/>
			<mapZone other="Arabic Standard Time" territory="IQ" type="Asia/Baghdad"/>

			<mapZone other="Turkey Standard Time" territory="001" type="Europe/Istanbul"/>
			<mapZone other="Turkey Standard Time" territory="TR" type="Europe/Istanbul"/>

			<mapZone other="Arab Standard Time" territory="001" type="Asia/Riyadh"/>
			<mapZone other="Arab Standard Time" territory="BH" type="Asia/Bahrain"/>
			<mapZone other="Arab Standard Time" territory="KW" type="Asia/Kuwait"/>
			<mapZone other="Arab Standard Time" territory="QA" type="Asia/Qatar"/>
			<mapZone other="Arab Standard Time" territory="SA" type="Asia/Riyadh"/>
			<mapZone other="Arab Standard Time" territory="YE" type="Asia/Aden"/>

			<mapZone other="Belarus Standard Time" territory="001" type="Europe/Minsk"/>
			<mapZone other="Belarus Standard Time" territory="BY" type="Europe/Minsk"/>

"#;

const PART_17: &'static str = r#"			<mapZone other="Russian Standard Time" territory="001" type="Europe/Moscow"/>
			<mapZone other="Russian Standard Time" territory="RU" type="Europe/Moscow Europe/Kirov"/>
			<mapZone other="Russian Standard Time" territory="UA" type="Europe/Simferopol"/>

			<mapZone other="E. Africa Standard Time" territory="001" type="Africa/Nairobi"/>
			<mapZone other="E. Africa Standard Time" territory="AQ" type="Antarctica/Syowa"/>
			<mapZone other="E. Africa Standard Time" territory="DJ" type="Africa/Djibouti"/>
			<mapZone other="E. Africa Standard Time" territory="ER" type="Africa/Asmera"/>
			<mapZone other="E. Africa Standard Time" territory="ET" type="Africa/Addis_Ababa"/>
			<mapZone other="E. Africa Standard Time" territory="KE" type="Africa/Nairobi"/>
			<mapZone other="E. Africa Standard Time" territory="KM" type="Indian/Comoro"/>
			<mapZone other="E. Africa Standard Time" territory="MG" type="Indian/Antananarivo"/>
			<mapZone other="E. Africa Standard Time" territory="SO" type="Africa/Mogadishu"/>
			<mapZone other="E. Africa Standard Time" territory="TZ" type="Africa/Dar_es_Salaam"/>
			<mapZone other="E. Africa Standard Time" territory="UG" type="Africa/Kampala"/>
			<mapZone other="E. Africa Standard Time" territory="YT" type="Indian/Mayotte"/>
			<mapZone other="E. Africa Standard Time" territory="ZZ" type="Etc/GMT-3"/>

			<mapZone other="Volgograd Standard Time" territory="001" type="Europe/Volgograd"/>
			<mapZone other="Volgograd Standard Time" territory="RU" type="Europe/Volgograd"/>

"#;

const PART_18: &'static str = r#"			<mapZone other="Iran Standard Time" territory="001" type="Asia/Tehran"/>
			<mapZone other="Iran Standard Time" territory="IR" type="Asia/Tehran"/>

			<mapZone other="Arabian Standard Time" territory="001" type="Asia/Dubai"/>
			<mapZone other="Arabian Standard Time" territory="AE" type="Asia/Dubai"/>
			<mapZone other="Arabian Standard Time" territory="OM" type="Asia/Muscat"/>
			<mapZone other="Arabian Standard Time" territory="ZZ" type="Etc/GMT-4"/>

			<mapZone other="Astrakhan Standard Time" territory="001" type="Europe/Astrakhan"/>
			<mapZone other="Astrakhan Standard Time" territory="RU" type="Europe/Astrakhan Europe/Ulyanovsk"/>

			<mapZone other="Azerbaijan Standard Time" territory="001" type="Asia/Baku"/>
			<mapZone other="Azerbaijan Standard Time" territory="AZ" type="Asia/Baku"/>

			<mapZone other="Russia Time Zone 3" territory="001" type="Europe/Samara"/>
			<mapZone other="Russia Time Zone 3" territory="RU" type="Europe/Samara"/>

			<mapZone other="Mauritius Standard Time" territory="001" type="Indian/Mauritius"/>
			<mapZone other="Mauritius Standard Time" territory="MU" type="Indian/Mauritius"/>
			<mapZone other="Mauritius Standard Time" territory="RE" type="Indian/Reunion"/>
			<mapZone other="Mauritius Standard Time" territory="SC" type="Indian/Mahe"/>

"#;

const PART_19: &'static str = r#"			<mapZone other="Saratov Standard Time" territory="001" type="Europe/Saratov"/>
			<mapZone other="Saratov Standard Time" territory="RU" type="Europe/Saratov"/>

			<mapZone other="Georgian Standard Time" territory="001" type="Asia/Tbilisi"/>
			<mapZone other="Georgian Standard Time" territory="GE" type="Asia/Tbilisi"/>

			<mapZone other="Caucasus Standard Time" territory="001" type="Asia/Yerevan"/>
			<mapZone other="Caucasus Standard Time" territory="AM" type="Asia/Yerevan"/>

			<mapZone other="Afghanistan Standard Time" territory="001" type="Asia/Kabul"/>
			<mapZone other="Afghanistan Standard Time" territory="AF" type="Asia/Kabul"/>

			<mapZone other="West Asia Standard Time" territory="001" type="Asia/Tashkent"/>
			<mapZone other="West Asia Standard Time" territory="AQ" type="Antarctica/Mawson"/>
			<mapZone other="West Asia Standard Time" territory="KZ" type="Asia/Oral Asia/Aqtau Asia/Aqtobe Asia/Atyrau"/>
			<mapZone other="West Asia Standard Time" territory="MV" type="Indian/Maldives"/>
			<mapZone other="West Asia Standard Time" territory="TF" type="Indian/Kerguelen"/>
			<mapZone other="West Asia Standard Time" territory="TJ" type="Asia/Dushanbe"/>
			<mapZone other="West Asia Standard Time" territory="TM" type="Asia/Ashgabat"/>
			<mapZone other="West Asia Standard Time" territory="UZ" type="Asia/Tashkent Asia/Samarkand"/>
			<mapZone other="West Asia Standard Time" territory="ZZ" type="Etc/GMT-5"/>

"#;

const PART_20: &'static str = r#"			<mapZone other="Ekaterinburg Standard Time" territory="001" type="Asia/Yekaterinburg"/>
			<mapZone other="Ekaterinburg Standard Time" territory="RU" type="Asia/Yekaterinburg"/>

			<mapZone other="Pakistan Standard Time" territory="001" type="Asia/Karachi"/>
			<mapZone other="Pakistan Standard Time" territory="PK" type="Asia/Karachi"/>

			<mapZone other="Qyzylorda Standard Time" territory="001" type="Asia/Qyzylorda"/>
			<mapZone other="Qyzylorda Standard Time" territory="KZ" type="Asia/Qyzylorda"/>

			<mapZone other="India Standard Time" territory="001" type="Asia/Calcutta"/>
			<mapZone other="India Standard Time" territory="IN" type="Asia/Calcutta"/>

			<mapZone other="Sri Lanka Standard Time" territory="001" type="Asia/Colombo"/>
			<mapZone other="Sri Lanka Standard Time" territory="LK" type="Asia/Colombo"/>

			<mapZone other="Nepal Standard Time" territory="001" type="Asia/Katmandu"/>
			<mapZone other="Nepal Standard Time" territory="NP" type="Asia/Katmandu"/>

			<mapZone other="Central Asia Standard Time" territory="001" type="Asia/Almaty"/>
			<mapZone other="Central Asia Standard Time" territory="AQ" type="Antarctica/Vostok"/>
			<mapZone other="Central Asia Standard Time" territory="CN" type="Asia/Urumqi"/>
			<mapZone other="Central Asia Standard Time" territory="IO" type="Indian/Chagos"/>
			<mapZone other="Central Asia Standard Time" territory="KG" type="Asia/Bishkek"/>
			<mapZone other="Central Asia Standard Time" territory="KZ" type="Asia/Almaty Asia/Qostanay"/>
			<mapZone other="Central Asia Standard Time" territory="ZZ" type="Etc/GMT-6"/>

"#;

const PART_21: &'static str = r#"			<mapZone other="Bangladesh Standard Time" territory="001" type="Asia/Dhaka"/>
			<mapZone other="Bangladesh Standard Time" territory="BD" type="Asia/Dhaka"/>
			<mapZone other="Bangladesh Standard Time" territory="BT" type="Asia/Thimphu"/>

			<mapZone other="Omsk Standard Time" territory="001" type="Asia/Omsk"/>
			<mapZone other="Omsk Standard Time" territory="RU" type="Asia/Omsk"/>

			<mapZone other="Myanmar Standard Time" territory="001" type="Asia/Rangoon"/>
			<mapZone other="Myanmar Standard Time" territory="CC" type="Indian/Cocos"/>
			<mapZone other="Myanmar Standard Time" territory="MM" type="Asia/Rangoon"/>

			<mapZone other="SE Asia Standard Time" territory="001" type="Asia/Bangkok"/>
			<mapZone other="SE Asia Standard Time" territory="AQ" type="Antarctica/Davis"/>
			<mapZone other="SE Asia Standard Time" territory="CX" type="Indian/Christmas"/>
			<mapZone other="SE Asia Standard Time" territory="ID" type="Asia/Jakarta Asia/Pontianak"/>
			<mapZone other="SE Asia Standard Time" territory="KH" type="Asia/Phnom_Penh"/>
			<mapZone other="SE Asia Standard Time" territory="LA" type="Asia/Vientiane"/>
			<mapZone other="SE Asia Standard Time" territory="TH" type="Asia/Bangkok"/>
			<mapZone other="SE Asia Standard Time" territory="VN" type="Asia/Saigon"/>
			<mapZone other="SE Asia Standard Time" territory="ZZ" type="Etc/GMT-7"/>

"#;

const PART_22: &'static str = r#"			<mapZone other="Altai Standard Time" territory="001" type="Asia/Barnaul"/>
			<mapZone other="Altai Standard Time" territory="RU" type="Asia/Barnaul"/>

			<mapZone other="W. Mongolia Standard Time" territory="001" type="Asia/Hovd"/>
			<mapZone other="W. Mongolia Standard Time" territory="MN" type="Asia/Hovd"/>

			<mapZone other="North Asia Standard Time" territory="001" type="Asia/Krasnoyarsk"/>
			<mapZone other="North Asia Standard Time" territory="RU" type="Asia/Krasnoyarsk Asia/Novokuznetsk"/>

			<mapZone other="N. Central Asia Standard Time" territory="001" type="Asia/Novosibirsk"/>
			<mapZone other="N. Central Asia Standard Time" territory="RU" type="Asia/Novosibirsk"/>

			<mapZone other="Tomsk Standard Time" territory="001" type="Asia/Tomsk"/>
			<mapZone other="Tomsk Standard Time" territory="RU" type="Asia/Tomsk"/>

			<mapZone other="China Standard Time" territory="001" type="Asia/Shanghai"/>
			<mapZone other="China Standard Time" territory="CN" type="Asia/Shanghai"/>
			<mapZone other="China Standard Time" territory="HK" type="Asia/Hong_Kong"/>
			<mapZone other="China Standard Time" territory="MO" type="Asia/Macau"/>

"#;

const PART_23: &'static str = r#"			<mapZone other="North Asia East Standard Time" territory="001" type="Asia/Irkutsk"/>
			<mapZone other="North Asia East Standard Time" territory="RU" type="Asia/Irkutsk"/>

			<mapZone other="Singapore Standard Time" territory="001" type="Asia/Singapore"/>
			<mapZone other="Singapore Standard Time" territory="BN" type="Asia/Brunei"/>
			<mapZone other="Singapore Standard Time" territory="ID" type="Asia/Makassar"/>
			<mapZone other="Singapore Standard Time" territory="MY" type="Asia/Kuala_Lumpur Asia/Kuching"/>
			<mapZone other="Singapore Standard Time" territory="PH" type="Asia/Manila"/>
			<mapZone other="Singapore Standard Time" territory="SG" type="Asia/Singapore"/>
			<mapZone other="Singapore Standard Time" territory="ZZ" type="Etc/GMT-8"/>

			<mapZone other="W. Australia Standard Time" territory="001" type="Australia/Perth"/>
			<mapZone other="W. Australia Standard Time" territory="AU" type="Australia/Perth"/>

			<mapZone other="Taipei Standard Time" territory="001" type="Asia/Taipei"/>
			<mapZone other="Taipei Standard Time" territory="TW" type="Asia/Taipei"/>

			<mapZone other="Ulaanbaatar Standard Time" territory="001" type="Asia/Ulaanbaatar"/>
			<mapZone other="Ulaanbaatar Standard Time" territory="MN" type="Asia/Ulaanbaatar Asia/Choibalsan"/>

"#;

const PART_24: &'static str = r#"			<mapZone other="Aus Central W. Standard Time" territory="001" type="Australia/Eucla"/>
			<mapZone other="Aus Central W. Standard Time" territory="AU" type="Australia/Eucla"/>

			<mapZone other="Transbaikal Standard Time" territory="001" type="Asia/Chita"/>
			<mapZone other="Transbaikal Standard Time" territory="RU" type="Asia/Chita"/>

			<mapZone other="Tokyo Standard Time" territory="001" type="Asia/Tokyo"/>
			<mapZone other="Tokyo Standard Time" territory="ID" type="Asia/Jayapura"/>
			<mapZone other="Tokyo Standard Time" territory="JP" type="Asia/Tokyo"/>
			<mapZone other="Tokyo Standard Time" territory="PW" type="Pacific/Palau"/>
			<mapZone other="Tokyo Standard Time" territory="TL" type="Asia/Dili"/>
			<mapZone other="Tokyo Standard Time" territory="ZZ" type="Etc/GMT-9"/>

			<mapZone other="North Korea Standard Time" territory="001" type="Asia/Pyongyang"/>
			<mapZone other="North Korea Standard Time" territory="KP" type="Asia/Pyongyang"/>

			<mapZone other="Korea Standard Time" territory="001" type="Asia/Seoul"/>
			<mapZone other="Korea Standard Time" territory="KR" type="Asia/Seoul"/>

			<mapZone other="Yakutsk Standard Time" territory="001" type="Asia/Yakutsk"/>
			<mapZone other="Yakutsk Standard Time" territory="RU" type="Asia/Yakutsk Asia/Khandyga"/>

"#;

const PART_25: &'static str = r#"			<mapZone other="Cen. Australia Standard Time" territory="001" type="Australia/Adelaide"/>
			<mapZone other="Cen. Australia Standard Time" territory="AU" type="Australia/Adelaide Australia/Broken_Hill"/>

			<mapZone other="AUS Central Standard Time" territory="001" type="Australia/Darwin"/>
			<mapZone other="AUS Central Standard Time" territory="AU" type="Australia/Darwin"/>

			<mapZone other="E. Australia Standard Time" territory="001" type="Australia/Brisbane"/>
			<mapZone other="E. Australia Standard Time" territory="AU" type="Australia/Brisbane Australia/Lindeman"/>

			<mapZone other="AUS Eastern Standard Time" territory="001" type="Australia/Sydney"/>
			<mapZone other="AUS Eastern Standard Time" territory="AU" type="Australia/Sydney Australia/Melbourne"/>

			<mapZone other="West Pacific Standard Time" territory="001" type="Pacific/Port_Moresby"/>
			<mapZone other="West Pacific Standard Time" territory="AQ" type="Antarctica/DumontDUrville"/>
			<mapZone other="West Pacific Standard Time" territory="FM" type="Pacific/Truk"/>
			<mapZone other="West Pacific Standard Time" territory="GU" type="Pacific/Guam"/>
			<mapZone other="West Pacific Standard Time" territory="MP" type="Pacific/Saipan"/>
			<mapZone other="West Pacific Standard Time" territory="PG" type="Pacific/Port_Moresby"/>
			<mapZone other="West Pacific Standard Time" territory="ZZ" type="Etc/GMT-10"/>

"#;

const PART_26: &'static str = r#"			<mapZone other="Tasmania Standard Time" territory="001" type="Australia/Hobart"/>
			<mapZone other="Tasmania Standard Time" territory="AU" type="Australia/Hobart Antarctica/Macquarie"/>

			<mapZone other="Vladivostok Standard Time" territory="001" type="Asia/Vladivostok"/>
			<mapZone other="Vladivostok Standard Time" territory="RU" type="Asia/Vladivostok Asia/Ust-Nera"/>

			<mapZone other="Lord Howe Standard Time" territory="001" type="Australia/Lord_Howe"/>
			<mapZone other="Lord Howe Standard Time" territory="AU" type="Australia/Lord_Howe"/>

			<mapZone other="Bougainville Standard Time" territory="001" type="Pacific/Bougainville"/>
			<mapZone other="Bougainville Standard Time" territory="PG" type="Pacific/Bougainville"/>

			<mapZone other="Russia Time Zone 10" territory="001" type="Asia/Srednekolymsk"/>
			<mapZone other="Russia Time Zone 10" territory="RU" type="Asia/Srednekolymsk"/>

			<mapZone other="Magadan Standard Time" territory="001" type="Asia/Magadan"/>
			<mapZone other="Magadan Standard Time" territory="RU" type="Asia/Magadan"/>

			<mapZone other="Norfolk Standard Time" territory="001" type="Pacific/Norfolk"/>
			<mapZone other="Norfolk Standard Time" territory="NF" type="Pacific/Norfolk"/>

"#;

const PART_27: &'static str = r#"			<mapZone other="Sakhalin Standard Time" territory="001" type="Asia/Sakhalin"/>
			<mapZone other="Sakhalin Standard Time" territory="RU" type="Asia/Sakhalin"/>

			<mapZone other="Central Pacific Standard Time" territory="001" type="Pacific/Guadalcanal"/>
			<mapZone other="Central Pacific Standard Time" territory="AQ" type="Antarctica/Casey"/>
			<mapZone other="Central Pacific Standard Time" territory="FM" type="Pacific/Ponape Pacific/Kosrae"/>
			<mapZone other="Central Pacific Standard Time" territory="NC" type="Pacific/Noumea"/>
			<mapZone other="Central Pacific Standard Time" territory="SB" type="Pacific/Guadalcanal"/>
			<mapZone other="Central Pacific Standard Time" territory="VU" type="Pacific/Efate"/>
			<mapZone other="Central Pacific Standard Time" territory="ZZ" type="Etc/GMT-11"/>

			<mapZone other="Russia Time Zone 11" territory="001" type="Asia/Kamchatka"/>
			<mapZone other="Russia Time Zone 11" territory="RU" type="Asia/Kamchatka Asia/Anadyr"/>

			<mapZone other="New Zealand Standard Time" territory="001" type="Pacific/Auckland"/>
			<mapZone other="New Zealand Standard Time" territory="AQ" type="Antarctica/McMurdo"/>
			<mapZone other="New Zealand Standard Time" territory="NZ" type="Pacific/Auckland"/>

			<mapZone other="UTC+12" territory="001" type="Etc/GMT-12"/>
			<mapZone other="UTC+12" territory="KI" type="Pacific/Tarawa"/>
			<mapZone other="UTC+12" territory="MH" type="Pacific/Majuro Pacific/Kwajalein"/>
			<mapZone other="UTC+12" territory="NR" type="Pacific/Nauru"/>
			<mapZone other="UTC+12" territory="TV" type="Pacific/Funafuti"/>
			<mapZone other="UTC+12" territory="UM" type="Pacific/Wake"/>
			<mapZone other="UTC+12" territory="WF" type="Pacific/Wallis"/>
			<mapZone other="UTC+12" territory="ZZ" type="Etc/GMT-12"/>

"#;

const PART_28: &'static str = r#"			<mapZone other="Fiji Standard Time" territory="001" type="Pacific/Fiji"/>
			<mapZone other="Fiji Standard Time" territory="FJ" type="Pacific/Fiji"/>

			<mapZone other="Chatham Islands Standard Time" territory="001" type="Pacific/Chatham"/>
			<mapZone other="Chatham Islands Standard Time" territory="NZ" type="Pacific/Chatham"/>

			<mapZone other="UTC+13" territory="001" type="Etc/GMT-13"/>
			<mapZone other="UTC+13" territory="KI" type="Pacific/Enderbury"/>
			<mapZone other="UTC+13" territory="TK" type="Pacific/Fakaofo"/>
			<mapZone other="UTC+13" territory="ZZ" type="Etc/GMT-13"/>

			<mapZone other="Tonga Standard Time" territory="001" type="Pacific/Tongatapu"/>
			<mapZone other="Tonga Standard Time" territory="TO" type="Pacific/Tongatapu"/>

			<mapZone other="Samoa Standard Time" territory="001" type="Pacific/Apia"/>
			<mapZone other="Samoa Standard Time" territory="WS" type="Pacific/Apia"/>

			<mapZone other="Line Islands Standard Time" territory="001" type="Pacific/Kiritimati"/>
			<mapZone other="Line Islands Standard Time" territory="KI" type="Pacific/Kiritimati"/>
			<mapZone other="Line Islands Standard Time" territory="ZZ" type="Etc/GMT-14"/>
		</mapTimezones>
	</windowsZones>
</supplementalData>
"#;

/// The shipped document: its parts, in order.
pub closed spec fn windows_zones_doc() -> Seq<char> {
    PART_1@ + PART_2@ + PART_3@ + PART_4@ + PART_5@ + PART_6@ + PART_7@ + PART_8@ + PART_9@ +
    PART_10@ + PART_11@ + PART_12@ + PART_13@ + PART_14@ + PART_15@ + PART_16@ + PART_17@ +
    PART_18@ + PART_19@ + PART_20@ + PART_21@ + PART_22@ + PART_23@ + PART_24@ + PART_25@ +
    PART_26@ + PART_27@ + PART_28@
}

/// The shipped document.
pub fn windows_zones() -> (r: String)
    ensures
        r@ == windows_zones_doc(),
{
    let mut doc = String::new();
    doc.append(PART_1);
    doc.append(PART_2);
    doc.append(PART_3);
    doc.append(PART_4);
    doc.append(PART_5);
    doc.append(PART_6);
    doc.append(PART_7);
    doc.append(PART_8);
    doc.append(PART_9);
    doc.append(PART_10);
    doc.append(PART_11);
    doc.append(PART_12);
    doc.append(PART_13);
    doc.append(PART_14);
    doc.append(PART_15);
    doc.append(PART_16);
    doc.append(PART_17);
    doc.append(PART_18);
    doc.append(PART_19);
    doc.append(PART_20);
    doc.append(PART_21);
    doc.append(PART_22);
    doc.append(PART_23);
    doc.append(PART_24);
    doc.append(PART_25);
    doc.append(PART_26);
    doc.append(PART_27);
    doc.append(PART_28);
    proof {
        assert(doc@ =~= windows_zones_doc());
    }
    doc
}

/// The table the shipped document describes.
pub open spec fn bundled_table() -> Result<WindowsZonesView, DatasetError> {
    dataset_of(windows_zones_doc())
}

impl WindowsZones {
    /// The shipped table.
    pub fn bundled() -> (r: Result<WindowsZones, DatasetError>)
        ensures
            match r {
                Ok(d) => bundled_table() == Ok::<WindowsZonesView, DatasetError>(d@),
                Err(e) => bundled_table() == Err::<WindowsZonesView, DatasetError>(e),
            },
    {
        WindowsZones::parse(windows_zones().as_str())
    }
}

impl WindowsTz {
    /// The first row of the shipped table with this key name and, when one
    /// is given, exactly this territory.
    pub fn get(zone: &str, territory: Option<&str>) -> (r: Option<WindowsTz>)
        ensures
            match bundled_table() {
                Ok(d) => row_opt_view(r) == lookup(d.zones, zone@, str_opt_view(territory)),
                Err(_) => r is None,
            },
    {
        match WindowsZones::bundled() {
            Ok(d) => d.find(zone, territory),
            Err(_) => None,
        }
    }

    /// The time the shipped table was compiled, in seconds since the Unix
    /// epoch. The table is written into the source rather than compiled by
    /// a build step, so no time is recorded.
    pub fn build_date() -> (r: Option<i64>)
        ensures
            r is None,
    {
        None
    }

    /// The digest of the shipped table.
    pub fn hash() -> (r: Option<u64>)
        ensures
            match bundled_table() {
                Ok(d) => r == Some(d.hash),
                Err(_) => r is None,
            },
    {
        match WindowsZones::bundled() {
            Ok(d) => Some(d.hash()),
            Err(_) => None,
        }
    }

    /// The two version strings of the shipped table.
    pub fn version() -> (r: Option<(String, String)>)
        ensures
            match bundled_table() {
                Ok(d) => r matches Some(v) && v.0@ == d.version.0 && v.1@ == d.version.1,
                Err(_) => r is None,
            },
    {
        match WindowsZones::bundled() {
            Ok(d) => Some(d.version()),
            Err(_) => None,
        }
    }

    /// The first row of the shipped table that lists `tz`.
    pub fn from_iana(tz: &IanaTz) -> (r: Result<WindowsTz, Error>)
        ensures
            match bundled_table() {
                Ok(d) => match r {
                    Ok(w) => reverse(d.zones, tz@) == Some(w@),
                    Err(e) => reverse(d.zones, tz@) is None && e == Error::UnknownTimezone,
                },
                Err(_) => r == Err::<WindowsTz, Error>(Error::UnknownTimezone),
            },
    {
        match WindowsZones::bundled() {
            Ok(d) => d.to_windows(tz),
            Err(_) => Err(Error::UnknownTimezone),
        }
    }
}

} // verus!
