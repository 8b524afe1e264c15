//! What to do about a check that came back in default.
//!
//! Single source of truth for remedies: `explain` renders the static
//! [`Advice`] copy, `doctor` renders [`Remedy`] values derived from a live
//! [`CheckResult`]. No remedy ever points back at `josephine doctor` — inside
//! doctor that would be circular.

use vstd::prelude::*;

use crate::check::{result_severity, CheckResult, Severity};
use crate::i18n::{t, Lang};
use crate::text::{
    chars_eq_str, chars_of, decimal, lemma_trim_of_unpadded, matches_at, occurs_from, owned,
    push_decimal, push_str, str_eq, string_of, string_views, trim,
};

verus! {

/// Static per-check copy, independent of any run. Each field is an (EN, FR) pair.
#[derive(Clone, Copy)]
pub struct Advice {
    pub name: &'static str,
    pub what: (&'static str, &'static str),
    pub why: (&'static str, &'static str),
    pub remedy: (&'static str, &'static str),
}

/// The English or French half of a pair.
pub open spec fn pick(lang: Lang, pair: (&'static str, &'static str)) -> &'static str {
    match lang {
        Lang::En => pair.0,
        Lang::Fr => pair.1,
    }
}

impl Advice {
    /// The "what" line, in `lang`.
    pub fn what(&self, lang: Lang) -> (r: &'static str)
        ensures
            r == pick(lang, self.what),
    {
        t(lang, self.what.0, self.what.1)
    }

    /// The "why" line, in `lang`.
    pub fn why(&self, lang: Lang) -> (r: &'static str)
        ensures
            r == pick(lang, self.why),
    {
        t(lang, self.why.0, self.why.1)
    }

    /// The remedy line, in `lang`.
    pub fn remedy(&self, lang: Lang) -> (r: &'static str)
        ensures
            r == pick(lang, self.remedy),
    {
        t(lang, self.remedy.0, self.remedy.1)
    }
}

/// The checks' advice, in the order `explain` lists them.
pub open spec fn advice_table() -> Seq<Advice> {
    seq![
        Advice {
            name: "cpu",
            what: (
                "Processor load and the busiest processes.",
                "Charge processeur et processus les plus actifs.",
            ),
            why: (
                "Sustained high CPU can slow everything down or point to a runaway process.",
                "Une charge CPU élevée ralentit tout ou signale un processus incontrôlé.",
            ),
            remedy: (
                "Stop the hungriest process with `kill <PID>` if it's not expected.",
                "Arrêtez le plus gourmand avec `kill <PID>`, sauf si c'est normal.",
            ),
        },
        Advice {
            name: "memory",
            what: (
                "RAM and swap usage, plus the hungriest processes.",
                "Utilisation RAM et swap, et processus les plus gourmands.",
            ),
            why: (
                "Low free memory triggers swapping and OOM kills — work slows or apps vanish.",
                "Peu de mémoire libre provoque du swap et des OOM — tout ralentit ou des apps disparaissent.",
            ),
            remedy: (
                "Close the heaviest apps first; add swap or RAM if it repeats.",
                "Fermez d'abord les apps les plus lourdes ; ajoutez swap ou RAM.",
            ),
        },
        Advice {
            name: "disk",
            what: (
                "Free space on each mounted partition.",
                "Espace libre sur chaque partition montée.",
            ),
            why: (
                "A full disk stops writes, breaks updates and can corrupt databases.",
                "Un disque plein bloque les écritures, casse les mises à jour et peut corrompre des bases.",
            ),
            remedy: (
                "`josephine clean` previews what can be freed; clear the biggest.",
                "`josephine clean` estime ce qui peut être libéré ; videz le plus gros.",
            ),
        },
        Advice {
            name: "temperature",
            what: (
                "CPU and NVMe sensor temperatures.",
                "Températures des capteurs CPU et NVMe.",
            ),
            why: (
                "Overheating throttles performance and shortens hardware life.",
                "La surchauffe limite les performances et réduit la durée de vie du matériel.",
            ),
            remedy: (
                "Check airflow and dust; `sensors` for detail. On a duvet? Move it.",
                "Vérifiez ventilation et poussière ; `sensors` pour le détail.",
            ),
        },
        Advice {
            name: "systemd",
            what: (
                "Failed units and services that restart too often.",
                "Unités en échec et services qui redémarrent trop souvent.",
            ),
            why: (
                "A failed service means something you rely on may be down; crash loops hide root causes.",
                "Un service en échec signifie qu'un composant est peut-être arrêté ; les boucles de redémarrage masquent la cause.",
            ),
            remedy: (
                "Restart it: `sudo systemctl restart <unit>`, then `systemctl status`.",
                "Relancez-la : `sudo systemctl restart <unité>`, puis `systemctl status`.",
            ),
        },
        Advice {
            name: "updates",
            what: (
                "Pending package updates (apt, dnf or pacman).",
                "Mises à jour de paquets en attente (apt, dnf ou pacman).",
            ),
            why: (
                "Unpatched packages leave known vulnerabilities and bugs on the system.",
                "Des paquets non mis à jour laissent des failles et bugs connus sur le système.",
            ),
            remedy: (
                "Apply them when convenient: `sudo apt upgrade`, `sudo dnf upgrade`.",
                "Appliquez-les quand vous pouvez : `sudo apt upgrade`, `sudo dnf upgrade`.",
            ),
        },
        Advice {
            name: "network",
            what: (
                "Round-trip latency to the default gateway.",
                "Latence aller-retour vers la passerelle par défaut.",
            ),
            why: (
                "High latency or packet loss means local network trouble before the wider internet.",
                "Une latence élevée ou des pertes signalent un souci réseau local avant Internet.",
            ),
            remedy: (
                "Check Wi-Fi signal, cables and router; `ping` the gateway to confirm.",
                "Vérifiez signal Wi-Fi, câbles et routeur ; `ping` la passerelle.",
            ),
        },
        Advice {
            name: "battery",
            what: (
                "Charge level and depletion rate on battery power.",
                "Niveau de charge et vitesse de décharge sur batterie.",
            ),
            why: (
                "A battery draining fast or stuck low means you may lose work mid-session.",
                "Une batterie qui se vide vite ou reste basse peut couper votre travail en cours.",
            ),
            remedy: (
                "Plug in if you can; check power settings and what keeps the GPU awake.",
                "Branchez si possible ; vérifiez l'alimentation et le GPU qui veille.",
            ),
        },
        Advice {
            name: "inode",
            what: (
                "Inode usage on writable filesystems.",
                "Utilisation des inodes sur les systèmes de fichiers accessibles en écriture.",
            ),
            why: (
                "A disk can be \"full\" on inodes while still showing free space — many tiny files.",
                "Un disque peut être « plein » en inodes tout en affichant de l'espace libre — beaucoup de petits fichiers.",
            ),
            remedy: (
                "Prune caches and temp trees; `du --inodes -x -d1 /` finds the nests.",
                "Purgez caches et fichiers temporaires ; `du --inodes -x -d1 /` aide.",
            ),
        },
        Advice {
            name: "smart",
            what: (
                "SMART health status of disks (opt-in, often needs root).",
                "État de santé SMART des disques (opt-in, souvent root requis).",
            ),
            why: (
                "SMART warnings often precede hard drive failure by days or weeks.",
                "Les alertes SMART précèdent souvent une panne disque de quelques jours ou semaines.",
            ),
            remedy: (
                "Back up immediately; enable the check in config if `smartctl` allows.",
                "Sauvegardez immédiatement ; activez le check si `smartctl` le permet.",
            ),
        },
        Advice {
            name: "kernel",
            what: (
                "Kernel incidents in the last hour (OOM kills, oops, panics).",
                "Incidents noyau sur la dernière heure (OOM, oops, panics).",
            ),
            why: (
                "Kernel faults destabilise the whole machine — not just one app.",
                "Les fautes noyau déstabilisent toute la machine — pas seulement une app.",
            ),
            remedy: (
                "Read it: `journalctl -k -p err --since -1h`; back up if it repeats.",
                "Lisez : `journalctl -k -p err --since -1h` ; sauvegardez si ça répète.",
            ),
        },
        Advice {
            name: "filesystem",
            what: (
                "Writable filesystems unexpectedly mounted read-only.",
                "Systèmes de fichiers habituellement accessibles en écriture montés en lecture seule.",
            ),
            why: (
                "A silent read-only remount often means disk errors or corruption — data loss risk.",
                "Un remontage silencieux en lecture seule signale souvent erreurs disque ou corruption — risque de perte.",
            ),
            remedy: (
                "Back up what matters now, then `dmesg -T | grep -i read-only`.",
                "Sauvegardez ce qui compte, puis `dmesg -T | grep -i read-only`.",
            ),
        },
        Advice {
            name: "timesync",
            what: (
                "Whether the system clock is synchronised via NTP.",
                "Si l'horloge système est synchronisée via NTP.",
            ),
            why: (
                "Clock drift breaks log ordering, TLS validation and scheduled jobs.",
                "Une horloge qui dérive casse l'ordre des journaux, la validation TLS et les tâches planifiées.",
            ),
            remedy: (
                "`timedatectl set-ntp true` usually fixes it; check `timedatectl`.",
                "`timedatectl set-ntp true` règle souvent ça ; voyez `timedatectl`.",
            ),
        },
        Advice {
            name: "security",
            what: (
                "Failed login and authentication attempts in the last hour.",
                "Tentatives de connexion et d'authentification échouées sur la dernière heure.",
            ),
            why: (
                "Bursts of failed logins may mean someone is probing your machine.",
                "Des rafales de connexions échouées peuvent signifier qu'on sonde votre machine.",
            ),
            remedy: (
                "Review `journalctl -u sshd`; keys-only SSH and fail2ban if not you.",
                "Voyez `journalctl -u sshd` ; SSH par clés et fail2ban si pas vous.",
            ),
        },
        Advice {
            name: "reboot",
            what: (
                "Whether a restart is needed to finish applying updates.",
                "Si un redémarrage est nécessaire pour finir d'appliquer des mises à jour.",
            ),
            why: (
                "A new kernel or libraries only take effect after a reboot — security fixes included.",
                "Un nouveau noyau ou de nouvelles bibliothèques ne prennent effet qu'après un redémarrage.",
            ),
            remedy: (
                "Save your work, then reboot when convenient: `systemctl reboot`.",
                "Enregistrez, puis redémarrez quand vous voulez : `systemctl reboot`.",
            ),
        },
        Advice {
            name: "pressure",
            what: (
                "Time tasks spend stalled waiting for memory, CPU or IO (Linux PSI).",
                "Le temps passé par les tâches à attendre mémoire, CPU ou E/S (PSI).",
            ),
            why: (
                "Rising pressure means the machine is thrashing — it slows well before it fails.",
                "Une pression qui monte signale du thrashing — ça ralentit bien avant de lâcher.",
            ),
            remedy: (
                "Close the biggest memory user; add swap or RAM if it keeps stalling.",
                "Fermez le plus gros consommateur mémoire ; ajoutez swap ou RAM.",
            ),
        },
    ]
}

/// Every check's advice, in listing order.
pub fn all() -> (r: Vec<Advice>)
    ensures
        r@ == advice_table(),
{
    let mut v: Vec<Advice> = Vec::new();
    v.push(
        Advice {
            name: "cpu",
            what: (
                "Processor load and the busiest processes.",
                "Charge processeur et processus les plus actifs.",
            ),
            why: (
                "Sustained high CPU can slow everything down or point to a runaway process.",
                "Une charge CPU élevée ralentit tout ou signale un processus incontrôlé.",
            ),
            remedy: (
                "Stop the hungriest process with `kill <PID>` if it's not expected.",
                "Arrêtez le plus gourmand avec `kill <PID>`, sauf si c'est normal.",
            ),
        },
    );
    v.push(
        Advice {
            name: "memory",
            what: (
                "RAM and swap usage, plus the hungriest processes.",
                "Utilisation RAM et swap, et processus les plus gourmands.",
            ),
            why: (
                "Low free memory triggers swapping and OOM kills — work slows or apps vanish.",
                "Peu de mémoire libre provoque du swap et des OOM — tout ralentit ou des apps disparaissent.",
            ),
            remedy: (
                "Close the heaviest apps first; add swap or RAM if it repeats.",
                "Fermez d'abord les apps les plus lourdes ; ajoutez swap ou RAM.",
            ),
        },
    );
    v.push(
        Advice {
            name: "disk",
            what: (
                "Free space on each mounted partition.",
                "Espace libre sur chaque partition montée.",
            ),
            why: (
                "A full disk stops writes, breaks updates and can corrupt databases.",
                "Un disque plein bloque les écritures, casse les mises à jour et peut corrompre des bases.",
            ),
            remedy: (
                "`josephine clean` previews what can be freed; clear the biggest.",
                "`josephine clean` estime ce qui peut être libéré ; videz le plus gros.",
            ),
        },
    );
    v.push(
        Advice {
            name: "temperature",
            what: (
                "CPU and NVMe sensor temperatures.",
                "Températures des capteurs CPU et NVMe.",
            ),
            why: (
                "Overheating throttles performance and shortens hardware life.",
                "La surchauffe limite les performances et réduit la durée de vie du matériel.",
            ),
            remedy: (
                "Check airflow and dust; `sensors` for detail. On a duvet? Move it.",
                "Vérifiez ventilation et poussière ; `sensors` pour le détail.",
            ),
        },
    );
    v.push(
        Advice {
            name: "systemd",
            what: (
                "Failed units and services that restart too often.",
                "Unités en échec et services qui redémarrent trop souvent.",
            ),
            why: (
                "A failed service means something you rely on may be down; crash loops hide root causes.",
                "Un service en échec signifie qu'un composant est peut-être arrêté ; les boucles de redémarrage masquent la cause.",
            ),
            remedy: (
                "Restart it: `sudo systemctl restart <unit>`, then `systemctl status`.",
                "Relancez-la : `sudo systemctl restart <unité>`, puis `systemctl status`.",
            ),
        },
    );
    v.push(
        Advice {
            name: "updates",
            what: (
                "Pending package updates (apt, dnf or pacman).",
                "Mises à jour de paquets en attente (apt, dnf ou pacman).",
            ),
            why: (
                "Unpatched packages leave known vulnerabilities and bugs on the system.",
                "Des paquets non mis à jour laissent des failles et bugs connus sur le système.",
            ),
            remedy: (
                "Apply them when convenient: `sudo apt upgrade`, `sudo dnf upgrade`.",
                "Appliquez-les quand vous pouvez : `sudo apt upgrade`, `sudo dnf upgrade`.",
            ),
        },
    );
    v.push(
        Advice {
            name: "network",
            what: (
                "Round-trip latency to the default gateway.",
                "Latence aller-retour vers la passerelle par défaut.",
            ),
            why: (
                "High latency or packet loss means local network trouble before the wider internet.",
                "Une latence élevée ou des pertes signalent un souci réseau local avant Internet.",
            ),
            remedy: (
                "Check Wi-Fi signal, cables and router; `ping` the gateway to confirm.",
                "Vérifiez signal Wi-Fi, câbles et routeur ; `ping` la passerelle.",
            ),
        },
    );
    v.push(
        Advice {
            name: "battery",
            what: (
                "Charge level and depletion rate on battery power.",
                "Niveau de charge et vitesse de décharge sur batterie.",
            ),
            why: (
                "A battery draining fast or stuck low means you may lose work mid-session.",
                "Une batterie qui se vide vite ou reste basse peut couper votre travail en cours.",
            ),
            remedy: (
                "Plug in if you can; check power settings and what keeps the GPU awake.",
                "Branchez si possible ; vérifiez l'alimentation et le GPU qui veille.",
            ),
        },
    );
    v.push(
        Advice {
            name: "inode",
            what: (
                "Inode usage on writable filesystems.",
                "Utilisation des inodes sur les systèmes de fichiers accessibles en écriture.",
            ),
            why: (
                "A disk can be \"full\" on inodes while still showing free space — many tiny files.",
                "Un disque peut être « plein » en inodes tout en affichant de l'espace libre — beaucoup de petits fichiers.",
            ),
            remedy: (
                "Prune caches and temp trees; `du --inodes -x -d1 /` finds the nests.",
                "Purgez caches et fichiers temporaires ; `du --inodes -x -d1 /` aide.",
            ),
        },
    );
    v.push(
        Advice {
            name: "smart",
            what: (
                "SMART health status of disks (opt-in, often needs root).",
                "État de santé SMART des disques (opt-in, souvent root requis).",
            ),
            why: (
                "SMART warnings often precede hard drive failure by days or weeks.",
                "Les alertes SMART précèdent souvent une panne disque de quelques jours ou semaines.",
            ),
            remedy: (
                "Back up immediately; enable the check in config if `smartctl` allows.",
                "Sauvegardez immédiatement ; activez le check si `smartctl` le permet.",
            ),
        },
    );
    v.push(
        Advice {
            name: "kernel",
            what: (
                "Kernel incidents in the last hour (OOM kills, oops, panics).",
                "Incidents noyau sur la dernière heure (OOM, oops, panics).",
            ),
            why: (
                "Kernel faults destabilise the whole machine — not just one app.",
                "Les fautes noyau déstabilisent toute la machine — pas seulement une app.",
            ),
            remedy: (
                "Read it: `journalctl -k -p err --since -1h`; back up if it repeats.",
                "Lisez : `journalctl -k -p err --since -1h` ; sauvegardez si ça répète.",
            ),
        },
    );
    v.push(
        Advice {
            name: "filesystem",
            what: (
                "Writable filesystems unexpectedly mounted read-only.",
                "Systèmes de fichiers habituellement accessibles en écriture montés en lecture seule.",
            ),
            why: (
                "A silent read-only remount often means disk errors or corruption — data loss risk.",
                "Un remontage silencieux en lecture seule signale souvent erreurs disque ou corruption — risque de perte.",
            ),
            remedy: (
                "Back up what matters now, then `dmesg -T | grep -i read-only`.",
                "Sauvegardez ce qui compte, puis `dmesg -T | grep -i read-only`.",
            ),
        },
    );
    v.push(
        Advice {
            name: "timesync",
            what: (
                "Whether the system clock is synchronised via NTP.",
                "Si l'horloge système est synchronisée via NTP.",
            ),
            why: (
                "Clock drift breaks log ordering, TLS validation and scheduled jobs.",
                "Une horloge qui dérive casse l'ordre des journaux, la validation TLS et les tâches planifiées.",
            ),
            remedy: (
                "`timedatectl set-ntp true` usually fixes it; check `timedatectl`.",
                "`timedatectl set-ntp true` règle souvent ça ; voyez `timedatectl`.",
            ),
        },
    );
    v.push(
        Advice {
            name: "security",
            what: (
                "Failed login and authentication attempts in the last hour.",
                "Tentatives de connexion et d'authentification échouées sur la dernière heure.",
            ),
            why: (
                "Bursts of failed logins may mean someone is probing your machine.",
                "Des rafales de connexions échouées peuvent signifier qu'on sonde votre machine.",
            ),
            remedy: (
                "Review `journalctl -u sshd`; keys-only SSH and fail2ban if not you.",
                "Voyez `journalctl -u sshd` ; SSH par clés et fail2ban si pas vous.",
            ),
        },
    );
    v.push(
        Advice {
            name: "reboot",
            what: (
                "Whether a restart is needed to finish applying updates.",
                "Si un redémarrage est nécessaire pour finir d'appliquer des mises à jour.",
            ),
            why: (
                "A new kernel or libraries only take effect after a reboot — security fixes included.",
                "Un nouveau noyau ou de nouvelles bibliothèques ne prennent effet qu'après un redémarrage.",
            ),
            remedy: (
                "Save your work, then reboot when convenient: `systemctl reboot`.",
                "Enregistrez, puis redémarrez quand vous voulez : `systemctl reboot`.",
            ),
        },
    );
    v.push(
        Advice {
            name: "pressure",
            what: (
                "Time tasks spend stalled waiting for memory, CPU or IO (Linux PSI).",
                "Le temps passé par les tâches à attendre mémoire, CPU ou E/S (PSI).",
            ),
            why: (
                "Rising pressure means the machine is thrashing — it slows well before it fails.",
                "Une pression qui monte signale du thrashing — ça ralentit bien avant de lâcher.",
            ),
            remedy: (
                "Close the biggest memory user; add swap or RAM if it keeps stalling.",
                "Fermez le plus gros consommateur mémoire ; ajoutez swap ou RAM.",
            ),
        },
    );
    assert(v@ =~= advice_table());
    v
}

/// The first entry of `table` named `name`.
pub open spec fn advice_in(table: Seq<Advice>, name: Seq<char>) -> Option<Advice>
    decreases table.len(),
{
    if table.len() == 0 {
        None
    } else if table[0].name@ == name {
        Some(table[0])
    } else {
        advice_in(table.drop_first(), name)
    }
}

/// The advice for the check named `name`.
pub open spec fn advice_for(name: Seq<char>) -> Option<Advice> {
    advice_in(advice_table(), name)
}

/// The advice for one check, by its internal name (`cpu`, `disk`, …).
pub fn advice(check: &str) -> (r: Option<Advice>)
    ensures
        r == advice_for(check@),
{
    let table = all();
    let ghost tv = table@;
    let mut i: usize = 0;
    assert(tv.skip(0) =~= tv);
    while i < table.len()
        invariant
            i <= table.len(),
            tv == table@,
            tv == advice_table(),
            advice_in(tv, check@) == advice_in(tv.skip(i as int), check@),
        decreases table.len() - i,
    {
        assert(tv.skip(i as int)[0] == tv[i as int]);
        assert(tv.skip(i as int).drop_first() =~= tv.skip(i + 1));
        if str_eq(table[i].name, check) {
            return Some(table[i]);
        }
        i = i + 1;
    }
    None
}

// ---------------------------------------------------------------------------
// The advice copy itself
// ---------------------------------------------------------------------------

/// Both halves of a pair say something (not blank once trimmed), and the
/// French is not the English left untranslated.
pub open spec fn bilingual(pair: (&'static str, &'static str)) -> bool {
    &&& trim(pair.0@).len() > 0
    &&& trim(pair.1@).len() > 0
    &&& pair.0@ != pair.1@
}

/// A remedy line never sends the reader back to `josephine doctor` (or to a
/// `josephine fix` that no longer exists), and fits a terminal line: 80
/// columns less the section's `    1. ` prefix.
pub open spec fn fit_remedy(s: &'static str) -> bool {
    &&& !occurs_from(s@, "josephine doctor"@, 0)
    &&& !occurs_from(s@, "josephine fix"@, 0)
    &&& s@.len() <= 73
}

/// One check's copy is bilingual throughout and its remedies fit.
pub open spec fn sound_advice(a: Advice) -> bool {
    &&& bilingual(a.what)
    &&& bilingual(a.why)
    &&& bilingual(a.remedy)
    &&& fit_remedy(a.remedy.0)
    &&& fit_remedy(a.remedy.1)
}

#[verifier::spinoff_prover]
#[verifier::rlimit(100)]
proof fn lemma_advice_0_is_sound()
    ensures
        sound_advice(advice_table()[0]),
{
    let a = advice_table()[0];
    assert(bilingual(a.what)) by {
        reveal_strlit("Processor load and the busiest processes.");
        reveal_strlit("Charge processeur et processus les plus actifs.");
        lemma_trim_of_unpadded(a.what.0@);
        lemma_trim_of_unpadded(a.what.1@);
        assert(a.what.0@.len() != a.what.1@.len());
    }
    assert(bilingual(a.why)) by {
        reveal_strlit("Sustained high CPU can slow everything down or point to a runaway process.");
        reveal_strlit("Une charge CPU élevée ralentit tout ou signale un processus incontrôlé.");
        lemma_trim_of_unpadded(a.why.0@);
        lemma_trim_of_unpadded(a.why.1@);
        assert(a.why.0@.len() != a.why.1@.len());
    }
    assert(bilingual(a.remedy)) by {
        reveal_strlit("Stop the hungriest process with `kill <PID>` if it's not expected.");
        reveal_strlit("Arrêtez le plus gourmand avec `kill <PID>`, sauf si c'est normal.");
        lemma_trim_of_unpadded(a.remedy.0@);
        lemma_trim_of_unpadded(a.remedy.1@);
        assert(a.remedy.0@.len() != a.remedy.1@.len());
    }
    assert(fit_remedy(a.remedy.0)) by {
        reveal_strlit("Stop the hungriest process with `kill <PID>` if it's not expected.");
        reveal_strlit("josephine doctor");
        reveal_strlit("josephine fix");
        reveal_with_fuel(occurs_from, 10);
        reveal_with_fuel(matches_at, 18);
        assert(a.remedy.0@.len() <= 73);
        assert(!occurs_from(a.remedy.0@, "josephine doctor"@, 48));
        assert(!occurs_from(a.remedy.0@, "josephine doctor"@, 40));
        assert(!occurs_from(a.remedy.0@, "josephine doctor"@, 32));
        assert(!occurs_from(a.remedy.0@, "josephine doctor"@, 24));
        assert(!occurs_from(a.remedy.0@, "josephine doctor"@, 16));
        assert(!occurs_from(a.remedy.0@, "josephine doctor"@, 8));
        assert(!occurs_from(a.remedy.0@, "josephine doctor"@, 0));
        assert(!occurs_from(a.remedy.0@, "josephine fix"@, 48));
        assert(!occurs_from(a.remedy.0@, "josephine fix"@, 40));
        assert(!occurs_from(a.remedy.0@, "josephine fix"@, 32));
        assert(!occurs_from(a.remedy.0@, "josephine fix"@, 24));
        assert(!occurs_from(a.remedy.0@, "josephine fix"@, 16));
        assert(!occurs_from(a.remedy.0@, "josephine fix"@, 8));
        assert(!occurs_from(a.remedy.0@, "josephine fix"@, 0));
    }
    assert(fit_remedy(a.remedy.1)) by {
        reveal_strlit("Arrêtez le plus gourmand avec `kill <PID>`, sauf si c'est normal.");
        reveal_strlit("josephine doctor");
        reveal_strlit("josephine fix");
        reveal_with_fuel(occurs_from, 10);
        reveal_with_fuel(matches_at, 18);
        assert(a.remedy.1@.len() <= 73);
        assert(!occurs_from(a.remedy.1@, "josephine doctor"@, 48));
        assert(!occurs_from(a.remedy.1@, "josephine doctor"@, 40));
        assert(!occurs_from(a.remedy.1@, "josephine doctor"@, 32));
        assert(!occurs_from(a.remedy.1@, "josephine doctor"@, 24));
        assert(!occurs_from(a.remedy.1@, "josephine doctor"@, 16));
        assert(!occurs_from(a.remedy.1@, "josephine doctor"@, 8));
        assert(!occurs_from(a.remedy.1@, "josephine doctor"@, 0));
        assert(!occurs_from(a.remedy.1@, "josephine fix"@, 48));
        assert(!occurs_from(a.remedy.1@, "josephine fix"@, 40));
        assert(!occurs_from(a.remedy.1@, "josephine fix"@, 32));
        assert(!occurs_from(a.remedy.1@, "josephine fix"@, 24));
        assert(!occurs_from(a.remedy.1@, "josephine fix"@, 16));
        assert(!occurs_from(a.remedy.1@, "josephine fix"@, 8));
        assert(!occurs_from(a.remedy.1@, "josephine fix"@, 0));
    }
}

#[verifier::spinoff_prover]
#[verifier::rlimit(100)]
proof fn lemma_advice_1_is_sound()
    ensures
        sound_advice(advice_table()[1]),
{
    let a = advice_table()[1];
    assert(bilingual(a.what)) by {
        reveal_strlit("RAM and swap usage, plus the hungriest processes.");
        reveal_strlit("Utilisation RAM et swap, et processus les plus gourmands.");
        lemma_trim_of_unpadded(a.what.0@);
        lemma_trim_of_unpadded(a.what.1@);
        assert(a.what.0@.len() != a.what.1@.len());
    }
    assert(bilingual(a.why)) by {
        reveal_strlit("Low free memory triggers swapping and OOM kills — work slows or apps vanish.");
        reveal_strlit("Peu de mémoire libre provoque du swap et des OOM — tout ralentit ou des apps disparaissent.");
        lemma_trim_of_unpadded(a.why.0@);
        lemma_trim_of_unpadded(a.why.1@);
        assert(a.why.0@.len() != a.why.1@.len());
    }
    assert(bilingual(a.remedy)) by {
        reveal_strlit("Close the heaviest apps first; add swap or RAM if it repeats.");
        reveal_strlit("Fermez d'abord les apps les plus lourdes ; ajoutez swap ou RAM.");
        lemma_trim_of_unpadded(a.remedy.0@);
        lemma_trim_of_unpadded(a.remedy.1@);
        assert(a.remedy.0@.len() != a.remedy.1@.len());
    }
    assert(fit_remedy(a.remedy.0)) by {
        reveal_strlit("Close the heaviest apps first; add swap or RAM if it repeats.");
        reveal_strlit("josephine doctor");
        reveal_strlit("josephine fix");
        reveal_with_fuel(occurs_from, 10);
        reveal_with_fuel(matches_at, 18);
        assert(a.remedy.0@.len() <= 73);
        assert(!occurs_from(a.remedy.0@, "josephine doctor"@, 40));
        assert(!occurs_from(a.remedy.0@, "josephine doctor"@, 32));
        assert(!occurs_from(a.remedy.0@, "josephine doctor"@, 24));
        assert(!occurs_from(a.remedy.0@, "josephine doctor"@, 16));
        assert(!occurs_from(a.remedy.0@, "josephine doctor"@, 8));
        assert(!occurs_from(a.remedy.0@, "josephine doctor"@, 0));
        assert(!occurs_from(a.remedy.0@, "josephine fix"@, 48));
        assert(!occurs_from(a.remedy.0@, "josephine fix"@, 40));
        assert(!occurs_from(a.remedy.0@, "josephine fix"@, 32));
        assert(!occurs_from(a.remedy.0@, "josephine fix"@, 24));
        assert(!occurs_from(a.remedy.0@, "josephine fix"@, 16));
        assert(!occurs_from(a.remedy.0@, "josephine fix"@, 8));
        assert(!occurs_from(a.remedy.0@, "josephine fix"@, 0));
    }
    assert(fit_remedy(a.remedy.1)) by {
        reveal_strlit("Fermez d'abord les apps les plus lourdes ; ajoutez swap ou RAM.");
        reveal_strlit("josephine doctor");
        reveal_strlit("josephine fix");
        reveal_with_fuel(occurs_from, 10);
        reveal_with_fuel(matches_at, 18);
        assert(!matches_at(a.remedy.1@, "josephine doctor"@, 44, 0));
        assert(!matches_at(a.remedy.1@, "josephine fix"@, 44, 0));
        assert(a.remedy.1@.len() <= 73);
        assert(!occurs_from(a.remedy.1@, "josephine doctor"@, 40));
        assert(!occurs_from(a.remedy.1@, "josephine doctor"@, 32));
        assert(!occurs_from(a.remedy.1@, "josephine doctor"@, 24));
        assert(!occurs_from(a.remedy.1@, "josephine doctor"@, 16));
        assert(!occurs_from(a.remedy.1@, "josephine doctor"@, 8));
        assert(!occurs_from(a.remedy.1@, "josephine doctor"@, 0));
        assert(!occurs_from(a.remedy.1@, "josephine fix"@, 48));
        assert(!occurs_from(a.remedy.1@, "josephine fix"@, 40));
        assert(!occurs_from(a.remedy.1@, "josephine fix"@, 32));
        assert(!occurs_from(a.remedy.1@, "josephine fix"@, 24));
        assert(!occurs_from(a.remedy.1@, "josephine fix"@, 16));
        assert(!occurs_from(a.remedy.1@, "josephine fix"@, 8));
        assert(!occurs_from(a.remedy.1@, "josephine fix"@, 0));
    }
}

#[verifier::spinoff_prover]
#[verifier::rlimit(100)]
proof fn lemma_advice_2_is_sound()
    ensures
        sound_advice(advice_table()[2]),
{
    let a = advice_table()[2];
    assert(bilingual(a.what)) by {
        reveal_strlit("Free space on each mounted partition.");
        reveal_strlit("Espace libre sur chaque partition montée.");
        lemma_trim_of_unpadded(a.what.0@);
        lemma_trim_of_unpadded(a.what.1@);
        assert(a.what.0@.len() != a.what.1@.len());
    }
    assert(bilingual(a.why)) by {
        reveal_strlit("A full disk stops writes, breaks updates and can corrupt databases.");
        reveal_strlit("Un disque plein bloque les écritures, casse les mises à jour et peut corrompre des bases.");
        lemma_trim_of_unpadded(a.why.0@);
        lemma_trim_of_unpadded(a.why.1@);
        assert(a.why.0@.len() != a.why.1@.len());
    }
    assert(bilingual(a.remedy)) by {
        reveal_strlit("`josephine clean` previews what can be freed; clear the biggest.");
        reveal_strlit("`josephine clean` estime ce qui peut être libéré ; videz le plus gros.");
        lemma_trim_of_unpadded(a.remedy.0@);
        lemma_trim_of_unpadded(a.remedy.1@);
        assert(a.remedy.0@.len() != a.remedy.1@.len());
    }
    assert(fit_remedy(a.remedy.0)) by {
        reveal_strlit("`josephine clean` previews what can be freed; clear the biggest.");
        reveal_strlit("josephine doctor");
        reveal_strlit("josephine fix");
        reveal_with_fuel(occurs_from, 10);
        reveal_with_fuel(matches_at, 18);
        assert(!matches_at(a.remedy.0@, "josephine doctor"@, 1, 0));
        assert(!matches_at(a.remedy.0@, "josephine fix"@, 1, 0));
        assert(a.remedy.0@.len() <= 73);
        assert(!occurs_from(a.remedy.0@, "josephine doctor"@, 48));
        assert(!occurs_from(a.remedy.0@, "josephine doctor"@, 40));
        assert(!occurs_from(a.remedy.0@, "josephine doctor"@, 32));
        assert(!occurs_from(a.remedy.0@, "josephine doctor"@, 24));
        assert(!occurs_from(a.remedy.0@, "josephine doctor"@, 16));
        assert(!occurs_from(a.remedy.0@, "josephine doctor"@, 8));
        assert(!occurs_from(a.remedy.0@, "josephine doctor"@, 0));
        assert(!occurs_from(a.remedy.0@, "josephine fix"@, 48));
        assert(!occurs_from(a.remedy.0@, "josephine fix"@, 40));
        assert(!occurs_from(a.remedy.0@, "josephine fix"@, 32));
        assert(!occurs_from(a.remedy.0@, "josephine fix"@, 24));
        assert(!occurs_from(a.remedy.0@, "josephine fix"@, 16));
        assert(!occurs_from(a.remedy.0@, "josephine fix"@, 8));
        assert(!occurs_from(a.remedy.0@, "josephine fix"@, 0));
    }
    assert(fit_remedy(a.remedy.1)) by {
        reveal_strlit("`josephine clean` estime ce qui peut être libéré ; videz le plus gros.");
        reveal_strlit("josephine doctor");
        reveal_strlit("josephine fix");
        reveal_with_fuel(occurs_from, 10);
        reveal_with_fuel(matches_at, 18);
        assert(!matches_at(a.remedy.1@, "josephine doctor"@, 1, 0));
        assert(!matches_at(a.remedy.1@, "josephine fix"@, 1, 0));
        assert(a.remedy.1@.len() <= 73);
        assert(!occurs_from(a.remedy.1@, "josephine doctor"@, 48));
        assert(!occurs_from(a.remedy.1@, "josephine doctor"@, 40));
        assert(!occurs_from(a.remedy.1@, "josephine doctor"@, 32));
        assert(!occurs_from(a.remedy.1@, "josephine doctor"@, 24));
        assert(!occurs_from(a.remedy.1@, "josephine doctor"@, 16));
        assert(!occurs_from(a.remedy.1@, "josephine doctor"@, 8));
        assert(!occurs_from(a.remedy.1@, "josephine doctor"@, 0));
        assert(!occurs_from(a.remedy.1@, "josephine fix"@, 56));
        assert(!occurs_from(a.remedy.1@, "josephine fix"@, 48));
        assert(!occurs_from(a.remedy.1@, "josephine fix"@, 40));
        assert(!occurs_from(a.remedy.1@, "josephine fix"@, 32));
        assert(!occurs_from(a.remedy.1@, "josephine fix"@, 24));
        assert(!occurs_from(a.remedy.1@, "josephine fix"@, 16));
        assert(!occurs_from(a.remedy.1@, "josephine fix"@, 8));
        assert(!occurs_from(a.remedy.1@, "josephine fix"@, 0));
    }
}

#[verifier::spinoff_prover]
#[verifier::rlimit(100)]
proof fn lemma_advice_3_is_sound()
    ensures
        sound_advice(advice_table()[3]),
{
    let a = advice_table()[3];
    assert(bilingual(a.what)) by {
        reveal_strlit("CPU and NVMe sensor temperatures.");
        reveal_strlit("Températures des capteurs CPU et NVMe.");
        lemma_trim_of_unpadded(a.what.0@);
        lemma_trim_of_unpadded(a.what.1@);
        assert(a.what.0@.len() != a.what.1@.len());
    }
    assert(bilingual(a.why)) by {
        reveal_strlit("Overheating throttles performance and shortens hardware life.");
        reveal_strlit("La surchauffe limite les performances et réduit la durée de vie du matériel.");
        lemma_trim_of_unpadded(a.why.0@);
        lemma_trim_of_unpadded(a.why.1@);
        assert(a.why.0@.len() != a.why.1@.len());
    }
    assert(bilingual(a.remedy)) by {
        reveal_strlit("Check airflow and dust; `sensors` for detail. On a duvet? Move it.");
        reveal_strlit("Vérifiez ventilation et poussière ; `sensors` pour le détail.");
        lemma_trim_of_unpadded(a.remedy.0@);
        lemma_trim_of_unpadded(a.remedy.1@);
        assert(a.remedy.0@.len() != a.remedy.1@.len());
    }
    assert(fit_remedy(a.remedy.0)) by {
        reveal_strlit("Check airflow and dust; `sensors` for detail. On a duvet? Move it.");
        reveal_strlit("josephine doctor");
        reveal_strlit("josephine fix");
        reveal_with_fuel(occurs_from, 10);
        reveal_with_fuel(matches_at, 18);
        assert(a.remedy.0@.len() <= 73);
        assert(!occurs_from(a.remedy.0@, "josephine doctor"@, 48));
        assert(!occurs_from(a.remedy.0@, "josephine doctor"@, 40));
        assert(!occurs_from(a.remedy.0@, "josephine doctor"@, 32));
        assert(!occurs_from(a.remedy.0@, "josephine doctor"@, 24));
        assert(!occurs_from(a.remedy.0@, "josephine doctor"@, 16));
        assert(!occurs_from(a.remedy.0@, "josephine doctor"@, 8));
        assert(!occurs_from(a.remedy.0@, "josephine doctor"@, 0));
        assert(!occurs_from(a.remedy.0@, "josephine fix"@, 48));
        assert(!occurs_from(a.remedy.0@, "josephine fix"@, 40));
        assert(!occurs_from(a.remedy.0@, "josephine fix"@, 32));
        assert(!occurs_from(a.remedy.0@, "josephine fix"@, 24));
        assert(!occurs_from(a.remedy.0@, "josephine fix"@, 16));
        assert(!occurs_from(a.remedy.0@, "josephine fix"@, 8));
        assert(!occurs_from(a.remedy.0@, "josephine fix"@, 0));
    }
    assert(fit_remedy(a.remedy.1)) by {
        reveal_strlit("Vérifiez ventilation et poussière ; `sensors` pour le détail.");
        reveal_strlit("josephine doctor");
        reveal_strlit("josephine fix");
        reveal_with_fuel(occurs_from, 10);
        reveal_with_fuel(matches_at, 18);
        assert(a.remedy.1@.len() <= 73);
        assert(!occurs_from(a.remedy.1@, "josephine doctor"@, 40));
        assert(!occurs_from(a.remedy.1@, "josephine doctor"@, 32));
        assert(!occurs_from(a.remedy.1@, "josephine doctor"@, 24));
        assert(!occurs_from(a.remedy.1@, "josephine doctor"@, 16));
        assert(!occurs_from(a.remedy.1@, "josephine doctor"@, 8));
        assert(!occurs_from(a.remedy.1@, "josephine doctor"@, 0));
        assert(!occurs_from(a.remedy.1@, "josephine fix"@, 48));
        assert(!occurs_from(a.remedy.1@, "josephine fix"@, 40));
        assert(!occurs_from(a.remedy.1@, "josephine fix"@, 32));
        assert(!occurs_from(a.remedy.1@, "josephine fix"@, 24));
        assert(!occurs_from(a.remedy.1@, "josephine fix"@, 16));
        assert(!occurs_from(a.remedy.1@, "josephine fix"@, 8));
        assert(!occurs_from(a.remedy.1@, "josephine fix"@, 0));
    }
}

#[verifier::spinoff_prover]
#[verifier::rlimit(100)]
proof fn lemma_advice_4_is_sound()
    ensures
        sound_advice(advice_table()[4]),
{
    let a = advice_table()[4];
    assert(bilingual(a.what)) by {
        reveal_strlit("Failed units and services that restart too often.");
        reveal_strlit("Unités en échec et services qui redémarrent trop souvent.");
        lemma_trim_of_unpadded(a.what.0@);
        lemma_trim_of_unpadded(a.what.1@);
        assert(a.what.0@.len() != a.what.1@.len());
    }
    assert(bilingual(a.why)) by {
        reveal_strlit("A failed service means something you rely on may be down; crash loops hide root causes.");
        reveal_strlit("Un service en échec signifie qu'un composant est peut-être arrêté ; les boucles de redémarrage masquent la cause.");
        lemma_trim_of_unpadded(a.why.0@);
        lemma_trim_of_unpadded(a.why.1@);
        assert(a.why.0@.len() != a.why.1@.len());
    }
    assert(bilingual(a.remedy)) by {
        reveal_strlit("Restart it: `sudo systemctl restart <unit>`, then `systemctl status`.");
        reveal_strlit("Relancez-la : `sudo systemctl restart <unité>`, puis `systemctl status`.");
        lemma_trim_of_unpadded(a.remedy.0@);
        lemma_trim_of_unpadded(a.remedy.1@);
        assert(a.remedy.0@.len() != a.remedy.1@.len());
    }
    assert(fit_remedy(a.remedy.0)) by {
        reveal_strlit("Restart it: `sudo systemctl restart <unit>`, then `systemctl status`.");
        reveal_strlit("josephine doctor");
        reveal_strlit("josephine fix");
        reveal_with_fuel(occurs_from, 10);
        reveal_with_fuel(matches_at, 18);
        assert(a.remedy.0@.len() <= 73);
        assert(!occurs_from(a.remedy.0@, "josephine doctor"@, 48));
        assert(!occurs_from(a.remedy.0@, "josephine doctor"@, 40));
        assert(!occurs_from(a.remedy.0@, "josephine doctor"@, 32));
        assert(!occurs_from(a.remedy.0@, "josephine doctor"@, 24));
        assert(!occurs_from(a.remedy.0@, "josephine doctor"@, 16));
        assert(!occurs_from(a.remedy.0@, "josephine doctor"@, 8));
        assert(!occurs_from(a.remedy.0@, "josephine doctor"@, 0));
        assert(!occurs_from(a.remedy.0@, "josephine fix"@, 56));
        assert(!occurs_from(a.remedy.0@, "josephine fix"@, 48));
        assert(!occurs_from(a.remedy.0@, "josephine fix"@, 40));
        assert(!occurs_from(a.remedy.0@, "josephine fix"@, 32));
        assert(!occurs_from(a.remedy.0@, "josephine fix"@, 24));
        assert(!occurs_from(a.remedy.0@, "josephine fix"@, 16));
        assert(!occurs_from(a.remedy.0@, "josephine fix"@, 8));
        assert(!occurs_from(a.remedy.0@, "josephine fix"@, 0));
    }
    assert(fit_remedy(a.remedy.1)) by {
        reveal_strlit("Relancez-la : `sudo systemctl restart <unité>`, puis `systemctl status`.");
        reveal_strlit("josephine doctor");
        reveal_strlit("josephine fix");
        reveal_with_fuel(occurs_from, 10);
        reveal_with_fuel(matches_at, 18);
        assert(a.remedy.1@.len() <= 73);
        assert(!occurs_from(a.remedy.1@, "josephine doctor"@, 56));
        assert(!occurs_from(a.remedy.1@, "josephine doctor"@, 48));
        assert(!occurs_from(a.remedy.1@, "josephine doctor"@, 40));
        assert(!occurs_from(a.remedy.1@, "josephine doctor"@, 32));
        assert(!occurs_from(a.remedy.1@, "josephine doctor"@, 24));
        assert(!occurs_from(a.remedy.1@, "josephine doctor"@, 16));
        assert(!occurs_from(a.remedy.1@, "josephine doctor"@, 8));
        assert(!occurs_from(a.remedy.1@, "josephine doctor"@, 0));
        assert(!occurs_from(a.remedy.1@, "josephine fix"@, 56));
        assert(!occurs_from(a.remedy.1@, "josephine fix"@, 48));
        assert(!occurs_from(a.remedy.1@, "josephine fix"@, 40));
        assert(!occurs_from(a.remedy.1@, "josephine fix"@, 32));
        assert(!occurs_from(a.remedy.1@, "josephine fix"@, 24));
        assert(!occurs_from(a.remedy.1@, "josephine fix"@, 16));
        assert(!occurs_from(a.remedy.1@, "josephine fix"@, 8));
        assert(!occurs_from(a.remedy.1@, "josephine fix"@, 0));
    }
}

#[verifier::spinoff_prover]
#[verifier::rlimit(100)]
proof fn lemma_advice_5_is_sound()
    ensures
        sound_advice(advice_table()[5]),
{
    let a = advice_table()[5];
    assert(bilingual(a.what)) by {
        reveal_strlit("Pending package updates (apt, dnf or pacman).");
        reveal_strlit("Mises à jour de paquets en attente (apt, dnf ou pacman).");
        lemma_trim_of_unpadded(a.what.0@);
        lemma_trim_of_unpadded(a.what.1@);
        assert(a.what.0@.len() != a.what.1@.len());
    }
    assert(bilingual(a.why)) by {
        reveal_strlit("Unpatched packages leave known vulnerabilities and bugs on the system.");
        reveal_strlit("Des paquets non mis à jour laissent des failles et bugs connus sur le système.");
        lemma_trim_of_unpadded(a.why.0@);
        lemma_trim_of_unpadded(a.why.1@);
        assert(a.why.0@.len() != a.why.1@.len());
    }
    assert(bilingual(a.remedy)) by {
        reveal_strlit("Apply them when convenient: `sudo apt upgrade`, `sudo dnf upgrade`.");
        reveal_strlit("Appliquez-les quand vous pouvez : `sudo apt upgrade`, `sudo dnf upgrade`.");
        lemma_trim_of_unpadded(a.remedy.0@);
        lemma_trim_of_unpadded(a.remedy.1@);
        assert(a.remedy.0@.len() != a.remedy.1@.len());
    }
    assert(fit_remedy(a.remedy.0)) by {
        reveal_strlit("Apply them when convenient: `sudo apt upgrade`, `sudo dnf upgrade`.");
        reveal_strlit("josephine doctor");
        reveal_strlit("josephine fix");
        reveal_with_fuel(occurs_from, 10);
        reveal_with_fuel(matches_at, 18);
        assert(a.remedy.0@.len() <= 73);
        assert(!occurs_from(a.remedy.0@, "josephine doctor"@, 48));
        assert(!occurs_from(a.remedy.0@, "josephine doctor"@, 40));
        assert(!occurs_from(a.remedy.0@, "josephine doctor"@, 32));
        assert(!occurs_from(a.remedy.0@, "josephine doctor"@, 24));
        assert(!occurs_from(a.remedy.0@, "josephine doctor"@, 16));
        assert(!occurs_from(a.remedy.0@, "josephine doctor"@, 8));
        assert(!occurs_from(a.remedy.0@, "josephine doctor"@, 0));
        assert(!occurs_from(a.remedy.0@, "josephine fix"@, 48));
        assert(!occurs_from(a.remedy.0@, "josephine fix"@, 40));
        assert(!occurs_from(a.remedy.0@, "josephine fix"@, 32));
        assert(!occurs_from(a.remedy.0@, "josephine fix"@, 24));
        assert(!occurs_from(a.remedy.0@, "josephine fix"@, 16));
        assert(!occurs_from(a.remedy.0@, "josephine fix"@, 8));
        assert(!occurs_from(a.remedy.0@, "josephine fix"@, 0));
    }
    assert(fit_remedy(a.remedy.1)) by {
        reveal_strlit("Appliquez-les quand vous pouvez : `sudo apt upgrade`, `sudo dnf upgrade`.");
        reveal_strlit("josephine doctor");
        reveal_strlit("josephine fix");
        reveal_with_fuel(occurs_from, 10);
        reveal_with_fuel(matches_at, 18);
        assert(a.remedy.1@.len() <= 73);
        assert(!occurs_from(a.remedy.1@, "josephine doctor"@, 56));
        assert(!occurs_from(a.remedy.1@, "josephine doctor"@, 48));
        assert(!occurs_from(a.remedy.1@, "josephine doctor"@, 40));
        assert(!occurs_from(a.remedy.1@, "josephine doctor"@, 32));
        assert(!occurs_from(a.remedy.1@, "josephine doctor"@, 24));
        assert(!occurs_from(a.remedy.1@, "josephine doctor"@, 16));
        assert(!occurs_from(a.remedy.1@, "josephine doctor"@, 8));
        assert(!occurs_from(a.remedy.1@, "josephine doctor"@, 0));
        assert(!occurs_from(a.remedy.1@, "josephine fix"@, 56));
        assert(!occurs_from(a.remedy.1@, "josephine fix"@, 48));
        assert(!occurs_from(a.remedy.1@, "josephine fix"@, 40));
        assert(!occurs_from(a.remedy.1@, "josephine fix"@, 32));
        assert(!occurs_from(a.remedy.1@, "josephine fix"@, 24));
        assert(!occurs_from(a.remedy.1@, "josephine fix"@, 16));
        assert(!occurs_from(a.remedy.1@, "josephine fix"@, 8));
        assert(!occurs_from(a.remedy.1@, "josephine fix"@, 0));
    }
}

#[verifier::spinoff_prover]
#[verifier::rlimit(100)]
proof fn lemma_advice_6_is_sound()
    ensures
        sound_advice(advice_table()[6]),
{
    let a = advice_table()[6];
    assert(bilingual(a.what)) by {
        reveal_strlit("Round-trip latency to the default gateway.");
        reveal_strlit("Latence aller-retour vers la passerelle par défaut.");
        lemma_trim_of_unpadded(a.what.0@);
        lemma_trim_of_unpadded(a.what.1@);
        assert(a.what.0@.len() != a.what.1@.len());
    }
    assert(bilingual(a.why)) by {
        reveal_strlit("High latency or packet loss means local network trouble before the wider internet.");
        reveal_strlit("Une latence élevée ou des pertes signalent un souci réseau local avant Internet.");
        lemma_trim_of_unpadded(a.why.0@);
        lemma_trim_of_unpadded(a.why.1@);
        assert(a.why.0@.len() != a.why.1@.len());
    }
    assert(bilingual(a.remedy)) by {
        reveal_strlit("Check Wi-Fi signal, cables and router; `ping` the gateway to confirm.");
        reveal_strlit("Vérifiez signal Wi-Fi, câbles et routeur ; `ping` la passerelle.");
        lemma_trim_of_unpadded(a.remedy.0@);
        lemma_trim_of_unpadded(a.remedy.1@);
        assert(a.remedy.0@.len() != a.remedy.1@.len());
    }
    assert(fit_remedy(a.remedy.0)) by {
        reveal_strlit("Check Wi-Fi signal, cables and router; `ping` the gateway to confirm.");
        reveal_strlit("josephine doctor");
        reveal_strlit("josephine fix");
        reveal_with_fuel(occurs_from, 10);
        reveal_with_fuel(matches_at, 18);
        assert(a.remedy.0@.len() <= 73);
        assert(!occurs_from(a.remedy.0@, "josephine doctor"@, 48));
        assert(!occurs_from(a.remedy.0@, "josephine doctor"@, 40));
        assert(!occurs_from(a.remedy.0@, "josephine doctor"@, 32));
        assert(!occurs_from(a.remedy.0@, "josephine doctor"@, 24));
        assert(!occurs_from(a.remedy.0@, "josephine doctor"@, 16));
        assert(!occurs_from(a.remedy.0@, "josephine doctor"@, 8));
        assert(!occurs_from(a.remedy.0@, "josephine doctor"@, 0));
        assert(!occurs_from(a.remedy.0@, "josephine fix"@, 56));
        assert(!occurs_from(a.remedy.0@, "josephine fix"@, 48));
        assert(!occurs_from(a.remedy.0@, "josephine fix"@, 40));
        assert(!occurs_from(a.remedy.0@, "josephine fix"@, 32));
        assert(!occurs_from(a.remedy.0@, "josephine fix"@, 24));
        assert(!occurs_from(a.remedy.0@, "josephine fix"@, 16));
        assert(!occurs_from(a.remedy.0@, "josephine fix"@, 8));
        assert(!occurs_from(a.remedy.0@, "josephine fix"@, 0));
    }
    assert(fit_remedy(a.remedy.1)) by {
        reveal_strlit("Vérifiez signal Wi-Fi, câbles et routeur ; `ping` la passerelle.");
        reveal_strlit("josephine doctor");
        reveal_strlit("josephine fix");
        reveal_with_fuel(occurs_from, 10);
        reveal_with_fuel(matches_at, 18);
        assert(a.remedy.1@.len() <= 73);
        assert(!occurs_from(a.remedy.1@, "josephine doctor"@, 48));
        assert(!occurs_from(a.remedy.1@, "josephine doctor"@, 40));
        assert(!occurs_from(a.remedy.1@, "josephine doctor"@, 32));
        assert(!occurs_from(a.remedy.1@, "josephine doctor"@, 24));
        assert(!occurs_from(a.remedy.1@, "josephine doctor"@, 16));
        assert(!occurs_from(a.remedy.1@, "josephine doctor"@, 8));
        assert(!occurs_from(a.remedy.1@, "josephine doctor"@, 0));
        assert(!occurs_from(a.remedy.1@, "josephine fix"@, 48));
        assert(!occurs_from(a.remedy.1@, "josephine fix"@, 40));
        assert(!occurs_from(a.remedy.1@, "josephine fix"@, 32));
        assert(!occurs_from(a.remedy.1@, "josephine fix"@, 24));
        assert(!occurs_from(a.remedy.1@, "josephine fix"@, 16));
        assert(!occurs_from(a.remedy.1@, "josephine fix"@, 8));
        assert(!occurs_from(a.remedy.1@, "josephine fix"@, 0));
    }
}

#[verifier::spinoff_prover]
#[verifier::rlimit(100)]
proof fn lemma_advice_7_is_sound()
    ensures
        sound_advice(advice_table()[7]),
{
    let a = advice_table()[7];
    assert(bilingual(a.what)) by {
        reveal_strlit("Charge level and depletion rate on battery power.");
        reveal_strlit("Niveau de charge et vitesse de décharge sur batterie.");
        lemma_trim_of_unpadded(a.what.0@);
        lemma_trim_of_unpadded(a.what.1@);
        assert(a.what.0@.len() != a.what.1@.len());
    }
    assert(bilingual(a.why)) by {
        reveal_strlit("A battery draining fast or stuck low means you may lose work mid-session.");
        reveal_strlit("Une batterie qui se vide vite ou reste basse peut couper votre travail en cours.");
        lemma_trim_of_unpadded(a.why.0@);
        lemma_trim_of_unpadded(a.why.1@);
        assert(a.why.0@.len() != a.why.1@.len());
    }
    assert(bilingual(a.remedy)) by {
        reveal_strlit("Plug in if you can; check power settings and what keeps the GPU awake.");
        reveal_strlit("Branchez si possible ; vérifiez l'alimentation et le GPU qui veille.");
        lemma_trim_of_unpadded(a.remedy.0@);
        lemma_trim_of_unpadded(a.remedy.1@);
        assert(a.remedy.0@.len() != a.remedy.1@.len());
    }
    assert(fit_remedy(a.remedy.0)) by {
        reveal_strlit("Plug in if you can; check power settings and what keeps the GPU awake.");
        reveal_strlit("josephine doctor");
        reveal_strlit("josephine fix");
        reveal_with_fuel(occurs_from, 10);
        reveal_with_fuel(matches_at, 18);
        assert(a.remedy.0@.len() <= 73);
        assert(!occurs_from(a.remedy.0@, "josephine doctor"@, 48));
        assert(!occurs_from(a.remedy.0@, "josephine doctor"@, 40));
        assert(!occurs_from(a.remedy.0@, "josephine doctor"@, 32));
        assert(!occurs_from(a.remedy.0@, "josephine doctor"@, 24));
        assert(!occurs_from(a.remedy.0@, "josephine doctor"@, 16));
        assert(!occurs_from(a.remedy.0@, "josephine doctor"@, 8));
        assert(!occurs_from(a.remedy.0@, "josephine doctor"@, 0));
        assert(!occurs_from(a.remedy.0@, "josephine fix"@, 56));
        assert(!occurs_from(a.remedy.0@, "josephine fix"@, 48));
        assert(!occurs_from(a.remedy.0@, "josephine fix"@, 40));
        assert(!occurs_from(a.remedy.0@, "josephine fix"@, 32));
        assert(!occurs_from(a.remedy.0@, "josephine fix"@, 24));
        assert(!occurs_from(a.remedy.0@, "josephine fix"@, 16));
        assert(!occurs_from(a.remedy.0@, "josephine fix"@, 8));
        assert(!occurs_from(a.remedy.0@, "josephine fix"@, 0));
    }
    assert(fit_remedy(a.remedy.1)) by {
        reveal_strlit("Branchez si possible ; vérifiez l'alimentation et le GPU qui veille.");
        reveal_strlit("josephine doctor");
        reveal_strlit("josephine fix");
        reveal_with_fuel(occurs_from, 10);
        reveal_with_fuel(matches_at, 18);
        assert(a.remedy.1@.len() <= 73);
        assert(!occurs_from(a.remedy.1@, "josephine doctor"@, 48));
        assert(!occurs_from(a.remedy.1@, "josephine doctor"@, 40));
        assert(!occurs_from(a.remedy.1@, "josephine doctor"@, 32));
        assert(!occurs_from(a.remedy.1@, "josephine doctor"@, 24));
        assert(!occurs_from(a.remedy.1@, "josephine doctor"@, 16));
        assert(!occurs_from(a.remedy.1@, "josephine doctor"@, 8));
        assert(!occurs_from(a.remedy.1@, "josephine doctor"@, 0));
        assert(!occurs_from(a.remedy.1@, "josephine fix"@, 48));
        assert(!occurs_from(a.remedy.1@, "josephine fix"@, 40));
        assert(!occurs_from(a.remedy.1@, "josephine fix"@, 32));
        assert(!occurs_from(a.remedy.1@, "josephine fix"@, 24));
        assert(!occurs_from(a.remedy.1@, "josephine fix"@, 16));
        assert(!occurs_from(a.remedy.1@, "josephine fix"@, 8));
        assert(!occurs_from(a.remedy.1@, "josephine fix"@, 0));
    }
}

#[verifier::spinoff_prover]
#[verifier::rlimit(100)]
proof fn lemma_advice_8_is_sound()
    ensures
        sound_advice(advice_table()[8]),
{
    let a = advice_table()[8];
    assert(bilingual(a.what)) by {
        reveal_strlit("Inode usage on writable filesystems.");
        reveal_strlit("Utilisation des inodes sur les systèmes de fichiers accessibles en écriture.");
        lemma_trim_of_unpadded(a.what.0@);
        lemma_trim_of_unpadded(a.what.1@);
        assert(a.what.0@.len() != a.what.1@.len());
    }
    assert(bilingual(a.why)) by {
        reveal_strlit("A disk can be \"full\" on inodes while still showing free space — many tiny files.");
        reveal_strlit("Un disque peut être « plein » en inodes tout en affichant de l'espace libre — beaucoup de petits fichiers.");
        lemma_trim_of_unpadded(a.why.0@);
        lemma_trim_of_unpadded(a.why.1@);
        assert(a.why.0@.len() != a.why.1@.len());
    }
    assert(bilingual(a.remedy)) by {
        reveal_strlit("Prune caches and temp trees; `du --inodes -x -d1 /` finds the nests.");
        reveal_strlit("Purgez caches et fichiers temporaires ; `du --inodes -x -d1 /` aide.");
        lemma_trim_of_unpadded(a.remedy.0@);
        lemma_trim_of_unpadded(a.remedy.1@);
        assert(a.remedy.0@[1] != a.remedy.1@[1]);
    }
    assert(fit_remedy(a.remedy.0)) by {
        reveal_strlit("Prune caches and temp trees; `du --inodes -x -d1 /` finds the nests.");
        reveal_strlit("josephine doctor");
        reveal_strlit("josephine fix");
        reveal_with_fuel(occurs_from, 10);
        reveal_with_fuel(matches_at, 18);
        assert(a.remedy.0@.len() <= 73);
        assert(!occurs_from(a.remedy.0@, "josephine doctor"@, 48));
        assert(!occurs_from(a.remedy.0@, "josephine doctor"@, 40));
        assert(!occurs_from(a.remedy.0@, "josephine doctor"@, 32));
        assert(!occurs_from(a.remedy.0@, "josephine doctor"@, 24));
        assert(!occurs_from(a.remedy.0@, "josephine doctor"@, 16));
        assert(!occurs_from(a.remedy.0@, "josephine doctor"@, 8));
        assert(!occurs_from(a.remedy.0@, "josephine doctor"@, 0));
        assert(!occurs_from(a.remedy.0@, "josephine fix"@, 48));
        assert(!occurs_from(a.remedy.0@, "josephine fix"@, 40));
        assert(!occurs_from(a.remedy.0@, "josephine fix"@, 32));
        assert(!occurs_from(a.remedy.0@, "josephine fix"@, 24));
        assert(!occurs_from(a.remedy.0@, "josephine fix"@, 16));
        assert(!occurs_from(a.remedy.0@, "josephine fix"@, 8));
        assert(!occurs_from(a.remedy.0@, "josephine fix"@, 0));
    }
    assert(fit_remedy(a.remedy.1)) by {
        reveal_strlit("Purgez caches et fichiers temporaires ; `du --inodes -x -d1 /` aide.");
        reveal_strlit("josephine doctor");
        reveal_strlit("josephine fix");
        reveal_with_fuel(occurs_from, 10);
        reveal_with_fuel(matches_at, 18);
        assert(a.remedy.1@.len() <= 73);
        assert(!occurs_from(a.remedy.1@, "josephine doctor"@, 48));
        assert(!occurs_from(a.remedy.1@, "josephine doctor"@, 40));
        assert(!occurs_from(a.remedy.1@, "josephine doctor"@, 32));
        assert(!occurs_from(a.remedy.1@, "josephine doctor"@, 24));
        assert(!occurs_from(a.remedy.1@, "josephine doctor"@, 16));
        assert(!occurs_from(a.remedy.1@, "josephine doctor"@, 8));
        assert(!occurs_from(a.remedy.1@, "josephine doctor"@, 0));
        assert(!occurs_from(a.remedy.1@, "josephine fix"@, 48));
        assert(!occurs_from(a.remedy.1@, "josephine fix"@, 40));
        assert(!occurs_from(a.remedy.1@, "josephine fix"@, 32));
        assert(!occurs_from(a.remedy.1@, "josephine fix"@, 24));
        assert(!occurs_from(a.remedy.1@, "josephine fix"@, 16));
        assert(!occurs_from(a.remedy.1@, "josephine fix"@, 8));
        assert(!occurs_from(a.remedy.1@, "josephine fix"@, 0));
    }
}

#[verifier::spinoff_prover]
#[verifier::rlimit(100)]
proof fn lemma_advice_9_is_sound()
    ensures
        sound_advice(advice_table()[9]),
{
    let a = advice_table()[9];
    assert(bilingual(a.what)) by {
        reveal_strlit("SMART health status of disks (opt-in, often needs root).");
        reveal_strlit("État de santé SMART des disques (opt-in, souvent root requis).");
        lemma_trim_of_unpadded(a.what.0@);
        lemma_trim_of_unpadded(a.what.1@);
        assert(a.what.0@.len() != a.what.1@.len());
    }
    assert(bilingual(a.why)) by {
        reveal_strlit("SMART warnings often precede hard drive failure by days or weeks.");
        reveal_strlit("Les alertes SMART précèdent souvent une panne disque de quelques jours ou semaines.");
        lemma_trim_of_unpadded(a.why.0@);
        lemma_trim_of_unpadded(a.why.1@);
        assert(a.why.0@.len() != a.why.1@.len());
    }
    assert(bilingual(a.remedy)) by {
        reveal_strlit("Back up immediately; enable the check in config if `smartctl` allows.");
        reveal_strlit("Sauvegardez immédiatement ; activez le check si `smartctl` le permet.");
        lemma_trim_of_unpadded(a.remedy.0@);
        lemma_trim_of_unpadded(a.remedy.1@);
        assert(a.remedy.0@[0] != a.remedy.1@[0]);
    }
    assert(fit_remedy(a.remedy.0)) by {
        reveal_strlit("Back up immediately; enable the check in config if `smartctl` allows.");
        reveal_strlit("josephine doctor");
        reveal_strlit("josephine fix");
        reveal_with_fuel(occurs_from, 10);
        reveal_with_fuel(matches_at, 18);
        assert(a.remedy.0@.len() <= 73);
        assert(!occurs_from(a.remedy.0@, "josephine doctor"@, 48));
        assert(!occurs_from(a.remedy.0@, "josephine doctor"@, 40));
        assert(!occurs_from(a.remedy.0@, "josephine doctor"@, 32));
        assert(!occurs_from(a.remedy.0@, "josephine doctor"@, 24));
        assert(!occurs_from(a.remedy.0@, "josephine doctor"@, 16));
        assert(!occurs_from(a.remedy.0@, "josephine doctor"@, 8));
        assert(!occurs_from(a.remedy.0@, "josephine doctor"@, 0));
        assert(!occurs_from(a.remedy.0@, "josephine fix"@, 56));
        assert(!occurs_from(a.remedy.0@, "josephine fix"@, 48));
        assert(!occurs_from(a.remedy.0@, "josephine fix"@, 40));
        assert(!occurs_from(a.remedy.0@, "josephine fix"@, 32));
        assert(!occurs_from(a.remedy.0@, "josephine fix"@, 24));
        assert(!occurs_from(a.remedy.0@, "josephine fix"@, 16));
        assert(!occurs_from(a.remedy.0@, "josephine fix"@, 8));
        assert(!occurs_from(a.remedy.0@, "josephine fix"@, 0));
    }
    assert(fit_remedy(a.remedy.1)) by {
        reveal_strlit("Sauvegardez immédiatement ; activez le check si `smartctl` le permet.");
        reveal_strlit("josephine doctor");
        reveal_strlit("josephine fix");
        reveal_with_fuel(occurs_from, 10);
        reveal_with_fuel(matches_at, 18);
        assert(a.remedy.1@.len() <= 73);
        assert(!occurs_from(a.remedy.1@, "josephine doctor"@, 48));
        assert(!occurs_from(a.remedy.1@, "josephine doctor"@, 40));
        assert(!occurs_from(a.remedy.1@, "josephine doctor"@, 32));
        assert(!occurs_from(a.remedy.1@, "josephine doctor"@, 24));
        assert(!occurs_from(a.remedy.1@, "josephine doctor"@, 16));
        assert(!occurs_from(a.remedy.1@, "josephine doctor"@, 8));
        assert(!occurs_from(a.remedy.1@, "josephine doctor"@, 0));
        assert(!occurs_from(a.remedy.1@, "josephine fix"@, 56));
        assert(!occurs_from(a.remedy.1@, "josephine fix"@, 48));
        assert(!occurs_from(a.remedy.1@, "josephine fix"@, 40));
        assert(!occurs_from(a.remedy.1@, "josephine fix"@, 32));
        assert(!occurs_from(a.remedy.1@, "josephine fix"@, 24));
        assert(!occurs_from(a.remedy.1@, "josephine fix"@, 16));
        assert(!occurs_from(a.remedy.1@, "josephine fix"@, 8));
        assert(!occurs_from(a.remedy.1@, "josephine fix"@, 0));
    }
}

#[verifier::spinoff_prover]
#[verifier::rlimit(100)]
proof fn lemma_advice_10_is_sound()
    ensures
        sound_advice(advice_table()[10]),
{
    let a = advice_table()[10];
    assert(bilingual(a.what)) by {
        reveal_strlit("Kernel incidents in the last hour (OOM kills, oops, panics).");
        reveal_strlit("Incidents noyau sur la dernière heure (OOM, oops, panics).");
        lemma_trim_of_unpadded(a.what.0@);
        lemma_trim_of_unpadded(a.what.1@);
        assert(a.what.0@.len() != a.what.1@.len());
    }
    assert(bilingual(a.why)) by {
        reveal_strlit("Kernel faults destabilise the whole machine — not just one app.");
        reveal_strlit("Les fautes noyau déstabilisent toute la machine — pas seulement une app.");
        lemma_trim_of_unpadded(a.why.0@);
        lemma_trim_of_unpadded(a.why.1@);
        assert(a.why.0@.len() != a.why.1@.len());
    }
    assert(bilingual(a.remedy)) by {
        reveal_strlit("Read it: `journalctl -k -p err --since -1h`; back up if it repeats.");
        reveal_strlit("Lisez : `journalctl -k -p err --since -1h` ; sauvegardez si ça répète.");
        lemma_trim_of_unpadded(a.remedy.0@);
        lemma_trim_of_unpadded(a.remedy.1@);
        assert(a.remedy.0@.len() != a.remedy.1@.len());
    }
    assert(fit_remedy(a.remedy.0)) by {
        reveal_strlit("Read it: `journalctl -k -p err --since -1h`; back up if it repeats.");
        reveal_strlit("josephine doctor");
        reveal_strlit("josephine fix");
        reveal_with_fuel(occurs_from, 10);
        reveal_with_fuel(matches_at, 18);
        assert(!matches_at(a.remedy.0@, "josephine doctor"@, 10, 0));
        assert(!matches_at(a.remedy.0@, "josephine fix"@, 10, 0));
        assert(a.remedy.0@.len() <= 73);
        assert(!occurs_from(a.remedy.0@, "josephine doctor"@, 48));
        assert(!occurs_from(a.remedy.0@, "josephine doctor"@, 40));
        assert(!occurs_from(a.remedy.0@, "josephine doctor"@, 32));
        assert(!occurs_from(a.remedy.0@, "josephine doctor"@, 24));
        assert(!occurs_from(a.remedy.0@, "josephine doctor"@, 16));
        assert(!occurs_from(a.remedy.0@, "josephine doctor"@, 8));
        assert(!occurs_from(a.remedy.0@, "josephine doctor"@, 0));
        assert(!occurs_from(a.remedy.0@, "josephine fix"@, 48));
        assert(!occurs_from(a.remedy.0@, "josephine fix"@, 40));
        assert(!occurs_from(a.remedy.0@, "josephine fix"@, 32));
        assert(!occurs_from(a.remedy.0@, "josephine fix"@, 24));
        assert(!occurs_from(a.remedy.0@, "josephine fix"@, 16));
        assert(!occurs_from(a.remedy.0@, "josephine fix"@, 8));
        assert(!occurs_from(a.remedy.0@, "josephine fix"@, 0));
    }
    assert(fit_remedy(a.remedy.1)) by {
        reveal_strlit("Lisez : `journalctl -k -p err --since -1h` ; sauvegardez si ça répète.");
        reveal_strlit("josephine doctor");
        reveal_strlit("josephine fix");
        reveal_with_fuel(occurs_from, 10);
        reveal_with_fuel(matches_at, 18);
        assert(!matches_at(a.remedy.1@, "josephine doctor"@, 9, 0));
        assert(!matches_at(a.remedy.1@, "josephine fix"@, 9, 0));
        assert(a.remedy.1@.len() <= 73);
        assert(!occurs_from(a.remedy.1@, "josephine doctor"@, 48));
        assert(!occurs_from(a.remedy.1@, "josephine doctor"@, 40));
        assert(!occurs_from(a.remedy.1@, "josephine doctor"@, 32));
        assert(!occurs_from(a.remedy.1@, "josephine doctor"@, 24));
        assert(!occurs_from(a.remedy.1@, "josephine doctor"@, 16));
        assert(!occurs_from(a.remedy.1@, "josephine doctor"@, 8));
        assert(!occurs_from(a.remedy.1@, "josephine doctor"@, 0));
        assert(!occurs_from(a.remedy.1@, "josephine fix"@, 56));
        assert(!occurs_from(a.remedy.1@, "josephine fix"@, 48));
        assert(!occurs_from(a.remedy.1@, "josephine fix"@, 40));
        assert(!occurs_from(a.remedy.1@, "josephine fix"@, 32));
        assert(!occurs_from(a.remedy.1@, "josephine fix"@, 24));
        assert(!occurs_from(a.remedy.1@, "josephine fix"@, 16));
        assert(!occurs_from(a.remedy.1@, "josephine fix"@, 8));
        assert(!occurs_from(a.remedy.1@, "josephine fix"@, 0));
    }
}

#[verifier::spinoff_prover]
#[verifier::rlimit(100)]
proof fn lemma_advice_11_is_sound()
    ensures
        sound_advice(advice_table()[11]),
{
    let a = advice_table()[11];
    assert(bilingual(a.what)) by {
        reveal_strlit("Writable filesystems unexpectedly mounted read-only.");
        reveal_strlit("Systèmes de fichiers habituellement accessibles en écriture montés en lecture seule.");
        lemma_trim_of_unpadded(a.what.0@);
        lemma_trim_of_unpadded(a.what.1@);
        assert(a.what.0@.len() != a.what.1@.len());
    }
    assert(bilingual(a.why)) by {
        reveal_strlit("A silent read-only remount often means disk errors or corruption — data loss risk.");
        reveal_strlit("Un remontage silencieux en lecture seule signale souvent erreurs disque ou corruption — risque de perte.");
        lemma_trim_of_unpadded(a.why.0@);
        lemma_trim_of_unpadded(a.why.1@);
        assert(a.why.0@.len() != a.why.1@.len());
    }
    assert(bilingual(a.remedy)) by {
        reveal_strlit("Back up what matters now, then `dmesg -T | grep -i read-only`.");
        reveal_strlit("Sauvegardez ce qui compte, puis `dmesg -T | grep -i read-only`.");
        lemma_trim_of_unpadded(a.remedy.0@);
        lemma_trim_of_unpadded(a.remedy.1@);
        assert(a.remedy.0@.len() != a.remedy.1@.len());
    }
    assert(fit_remedy(a.remedy.0)) by {
        reveal_strlit("Back up what matters now, then `dmesg -T | grep -i read-only`.");
        reveal_strlit("josephine doctor");
        reveal_strlit("josephine fix");
        reveal_with_fuel(occurs_from, 10);
        reveal_with_fuel(matches_at, 18);
        assert(a.remedy.0@.len() <= 73);
        assert(!occurs_from(a.remedy.0@, "josephine doctor"@, 40));
        assert(!occurs_from(a.remedy.0@, "josephine doctor"@, 32));
        assert(!occurs_from(a.remedy.0@, "josephine doctor"@, 24));
        assert(!occurs_from(a.remedy.0@, "josephine doctor"@, 16));
        assert(!occurs_from(a.remedy.0@, "josephine doctor"@, 8));
        assert(!occurs_from(a.remedy.0@, "josephine doctor"@, 0));
        assert(!occurs_from(a.remedy.0@, "josephine fix"@, 48));
        assert(!occurs_from(a.remedy.0@, "josephine fix"@, 40));
        assert(!occurs_from(a.remedy.0@, "josephine fix"@, 32));
        assert(!occurs_from(a.remedy.0@, "josephine fix"@, 24));
        assert(!occurs_from(a.remedy.0@, "josephine fix"@, 16));
        assert(!occurs_from(a.remedy.0@, "josephine fix"@, 8));
        assert(!occurs_from(a.remedy.0@, "josephine fix"@, 0));
    }
    assert(fit_remedy(a.remedy.1)) by {
        reveal_strlit("Sauvegardez ce qui compte, puis `dmesg -T | grep -i read-only`.");
        reveal_strlit("josephine doctor");
        reveal_strlit("josephine fix");
        reveal_with_fuel(occurs_from, 10);
        reveal_with_fuel(matches_at, 18);
        assert(a.remedy.1@.len() <= 73);
        assert(!occurs_from(a.remedy.1@, "josephine doctor"@, 40));
        assert(!occurs_from(a.remedy.1@, "josephine doctor"@, 32));
        assert(!occurs_from(a.remedy.1@, "josephine doctor"@, 24));
        assert(!occurs_from(a.remedy.1@, "josephine doctor"@, 16));
        assert(!occurs_from(a.remedy.1@, "josephine doctor"@, 8));
        assert(!occurs_from(a.remedy.1@, "josephine doctor"@, 0));
        assert(!occurs_from(a.remedy.1@, "josephine fix"@, 48));
        assert(!occurs_from(a.remedy.1@, "josephine fix"@, 40));
        assert(!occurs_from(a.remedy.1@, "josephine fix"@, 32));
        assert(!occurs_from(a.remedy.1@, "josephine fix"@, 24));
        assert(!occurs_from(a.remedy.1@, "josephine fix"@, 16));
        assert(!occurs_from(a.remedy.1@, "josephine fix"@, 8));
        assert(!occurs_from(a.remedy.1@, "josephine fix"@, 0));
    }
}

#[verifier::spinoff_prover]
#[verifier::rlimit(100)]
proof fn lemma_advice_12_is_sound()
    ensures
        sound_advice(advice_table()[12]),
{
    let a = advice_table()[12];
    assert(bilingual(a.what)) by {
        reveal_strlit("Whether the system clock is synchronised via NTP.");
        reveal_strlit("Si l'horloge système est synchronisée via NTP.");
        lemma_trim_of_unpadded(a.what.0@);
        lemma_trim_of_unpadded(a.what.1@);
        assert(a.what.0@.len() != a.what.1@.len());
    }
    assert(bilingual(a.why)) by {
        reveal_strlit("Clock drift breaks log ordering, TLS validation and scheduled jobs.");
        reveal_strlit("Une horloge qui dérive casse l'ordre des journaux, la validation TLS et les tâches planifiées.");
        lemma_trim_of_unpadded(a.why.0@);
        lemma_trim_of_unpadded(a.why.1@);
        assert(a.why.0@.len() != a.why.1@.len());
    }
    assert(bilingual(a.remedy)) by {
        reveal_strlit("`timedatectl set-ntp true` usually fixes it; check `timedatectl`.");
        reveal_strlit("`timedatectl set-ntp true` règle souvent ça ; voyez `timedatectl`.");
        lemma_trim_of_unpadded(a.remedy.0@);
        lemma_trim_of_unpadded(a.remedy.1@);
        assert(a.remedy.0@.len() != a.remedy.1@.len());
    }
    assert(fit_remedy(a.remedy.0)) by {
        reveal_strlit("`timedatectl set-ntp true` usually fixes it; check `timedatectl`.");
        reveal_strlit("josephine doctor");
        reveal_strlit("josephine fix");
        reveal_with_fuel(occurs_from, 10);
        reveal_with_fuel(matches_at, 18);
        assert(a.remedy.0@.len() <= 73);
        assert(!occurs_from(a.remedy.0@, "josephine doctor"@, 48));
        assert(!occurs_from(a.remedy.0@, "josephine doctor"@, 40));
        assert(!occurs_from(a.remedy.0@, "josephine doctor"@, 32));
        assert(!occurs_from(a.remedy.0@, "josephine doctor"@, 24));
        assert(!occurs_from(a.remedy.0@, "josephine doctor"@, 16));
        assert(!occurs_from(a.remedy.0@, "josephine doctor"@, 8));
        assert(!occurs_from(a.remedy.0@, "josephine doctor"@, 0));
        assert(!occurs_from(a.remedy.0@, "josephine fix"@, 48));
        assert(!occurs_from(a.remedy.0@, "josephine fix"@, 40));
        assert(!occurs_from(a.remedy.0@, "josephine fix"@, 32));
        assert(!occurs_from(a.remedy.0@, "josephine fix"@, 24));
        assert(!occurs_from(a.remedy.0@, "josephine fix"@, 16));
        assert(!occurs_from(a.remedy.0@, "josephine fix"@, 8));
        assert(!occurs_from(a.remedy.0@, "josephine fix"@, 0));
    }
    assert(fit_remedy(a.remedy.1)) by {
        reveal_strlit("`timedatectl set-ntp true` règle souvent ça ; voyez `timedatectl`.");
        reveal_strlit("josephine doctor");
        reveal_strlit("josephine fix");
        reveal_with_fuel(occurs_from, 10);
        reveal_with_fuel(matches_at, 18);
        assert(a.remedy.1@.len() <= 73);
        assert(!occurs_from(a.remedy.1@, "josephine doctor"@, 48));
        assert(!occurs_from(a.remedy.1@, "josephine doctor"@, 40));
        assert(!occurs_from(a.remedy.1@, "josephine doctor"@, 32));
        assert(!occurs_from(a.remedy.1@, "josephine doctor"@, 24));
        assert(!occurs_from(a.remedy.1@, "josephine doctor"@, 16));
        assert(!occurs_from(a.remedy.1@, "josephine doctor"@, 8));
        assert(!occurs_from(a.remedy.1@, "josephine doctor"@, 0));
        assert(!occurs_from(a.remedy.1@, "josephine fix"@, 48));
        assert(!occurs_from(a.remedy.1@, "josephine fix"@, 40));
        assert(!occurs_from(a.remedy.1@, "josephine fix"@, 32));
        assert(!occurs_from(a.remedy.1@, "josephine fix"@, 24));
        assert(!occurs_from(a.remedy.1@, "josephine fix"@, 16));
        assert(!occurs_from(a.remedy.1@, "josephine fix"@, 8));
        assert(!occurs_from(a.remedy.1@, "josephine fix"@, 0));
    }
}

#[verifier::spinoff_prover]
#[verifier::rlimit(100)]
proof fn lemma_advice_13_is_sound()
    ensures
        sound_advice(advice_table()[13]),
{
    let a = advice_table()[13];
    assert(bilingual(a.what)) by {
        reveal_strlit("Failed login and authentication attempts in the last hour.");
        reveal_strlit("Tentatives de connexion et d'authentification échouées sur la dernière heure.");
        lemma_trim_of_unpadded(a.what.0@);
        lemma_trim_of_unpadded(a.what.1@);
        assert(a.what.0@.len() != a.what.1@.len());
    }
    assert(bilingual(a.why)) by {
        reveal_strlit("Bursts of failed logins may mean someone is probing your machine.");
        reveal_strlit("Des rafales de connexions échouées peuvent signifier qu'on sonde votre machine.");
        lemma_trim_of_unpadded(a.why.0@);
        lemma_trim_of_unpadded(a.why.1@);
        assert(a.why.0@.len() != a.why.1@.len());
    }
    assert(bilingual(a.remedy)) by {
        reveal_strlit("Review `journalctl -u sshd`; keys-only SSH and fail2ban if not you.");
        reveal_strlit("Voyez `journalctl -u sshd` ; SSH par clés et fail2ban si pas vous.");
        lemma_trim_of_unpadded(a.remedy.0@);
        lemma_trim_of_unpadded(a.remedy.1@);
        assert(a.remedy.0@.len() != a.remedy.1@.len());
    }
    assert(fit_remedy(a.remedy.0)) by {
        reveal_strlit("Review `journalctl -u sshd`; keys-only SSH and fail2ban if not you.");
        reveal_strlit("josephine doctor");
        reveal_strlit("josephine fix");
        reveal_with_fuel(occurs_from, 10);
        reveal_with_fuel(matches_at, 18);
        assert(!matches_at(a.remedy.0@, "josephine doctor"@, 8, 0));
        assert(!matches_at(a.remedy.0@, "josephine fix"@, 8, 0));
        assert(a.remedy.0@.len() <= 73);
        assert(!occurs_from(a.remedy.0@, "josephine doctor"@, 48));
        assert(!occurs_from(a.remedy.0@, "josephine doctor"@, 40));
        assert(!occurs_from(a.remedy.0@, "josephine doctor"@, 32));
        assert(!occurs_from(a.remedy.0@, "josephine doctor"@, 24));
        assert(!occurs_from(a.remedy.0@, "josephine doctor"@, 16));
        assert(!occurs_from(a.remedy.0@, "josephine doctor"@, 8));
        assert(!occurs_from(a.remedy.0@, "josephine doctor"@, 0));
        assert(!occurs_from(a.remedy.0@, "josephine fix"@, 48));
        assert(!occurs_from(a.remedy.0@, "josephine fix"@, 40));
        assert(!occurs_from(a.remedy.0@, "josephine fix"@, 32));
        assert(!occurs_from(a.remedy.0@, "josephine fix"@, 24));
        assert(!occurs_from(a.remedy.0@, "josephine fix"@, 16));
        assert(!occurs_from(a.remedy.0@, "josephine fix"@, 8));
        assert(!occurs_from(a.remedy.0@, "josephine fix"@, 0));
    }
    assert(fit_remedy(a.remedy.1)) by {
        reveal_strlit("Voyez `journalctl -u sshd` ; SSH par clés et fail2ban si pas vous.");
        reveal_strlit("josephine doctor");
        reveal_strlit("josephine fix");
        reveal_with_fuel(occurs_from, 10);
        reveal_with_fuel(matches_at, 18);
        assert(!matches_at(a.remedy.1@, "josephine doctor"@, 7, 0));
        assert(!matches_at(a.remedy.1@, "josephine fix"@, 7, 0));
        assert(a.remedy.1@.len() <= 73);
        assert(!occurs_from(a.remedy.1@, "josephine doctor"@, 48));
        assert(!occurs_from(a.remedy.1@, "josephine doctor"@, 40));
        assert(!occurs_from(a.remedy.1@, "josephine doctor"@, 32));
        assert(!occurs_from(a.remedy.1@, "josephine doctor"@, 24));
        assert(!occurs_from(a.remedy.1@, "josephine doctor"@, 16));
        assert(!occurs_from(a.remedy.1@, "josephine doctor"@, 8));
        assert(!occurs_from(a.remedy.1@, "josephine doctor"@, 0));
        assert(!occurs_from(a.remedy.1@, "josephine fix"@, 48));
        assert(!occurs_from(a.remedy.1@, "josephine fix"@, 40));
        assert(!occurs_from(a.remedy.1@, "josephine fix"@, 32));
        assert(!occurs_from(a.remedy.1@, "josephine fix"@, 24));
        assert(!occurs_from(a.remedy.1@, "josephine fix"@, 16));
        assert(!occurs_from(a.remedy.1@, "josephine fix"@, 8));
        assert(!occurs_from(a.remedy.1@, "josephine fix"@, 0));
    }
}

#[verifier::spinoff_prover]
#[verifier::rlimit(100)]
proof fn lemma_advice_14_is_sound()
    ensures
        sound_advice(advice_table()[14]),
{
    let a = advice_table()[14];
    assert(bilingual(a.what)) by {
        reveal_strlit("Whether a restart is needed to finish applying updates.");
        reveal_strlit("Si un redémarrage est nécessaire pour finir d'appliquer des mises à jour.");
        lemma_trim_of_unpadded(a.what.0@);
        lemma_trim_of_unpadded(a.what.1@);
        assert(a.what.0@.len() != a.what.1@.len());
    }
    assert(bilingual(a.why)) by {
        reveal_strlit("A new kernel or libraries only take effect after a reboot — security fixes included.");
        reveal_strlit("Un nouveau noyau ou de nouvelles bibliothèques ne prennent effet qu'après un redémarrage.");
        lemma_trim_of_unpadded(a.why.0@);
        lemma_trim_of_unpadded(a.why.1@);
        assert(a.why.0@.len() != a.why.1@.len());
    }
    assert(bilingual(a.remedy)) by {
        reveal_strlit("Save your work, then reboot when convenient: `systemctl reboot`.");
        reveal_strlit("Enregistrez, puis redémarrez quand vous voulez : `systemctl reboot`.");
        lemma_trim_of_unpadded(a.remedy.0@);
        lemma_trim_of_unpadded(a.remedy.1@);
        assert(a.remedy.0@.len() != a.remedy.1@.len());
    }
    assert(fit_remedy(a.remedy.0)) by {
        reveal_strlit("Save your work, then reboot when convenient: `systemctl reboot`.");
        reveal_strlit("josephine doctor");
        reveal_strlit("josephine fix");
        reveal_with_fuel(occurs_from, 10);
        reveal_with_fuel(matches_at, 18);
        assert(a.remedy.0@.len() <= 73);
        assert(!occurs_from(a.remedy.0@, "josephine doctor"@, 48));
        assert(!occurs_from(a.remedy.0@, "josephine doctor"@, 40));
        assert(!occurs_from(a.remedy.0@, "josephine doctor"@, 32));
        assert(!occurs_from(a.remedy.0@, "josephine doctor"@, 24));
        assert(!occurs_from(a.remedy.0@, "josephine doctor"@, 16));
        assert(!occurs_from(a.remedy.0@, "josephine doctor"@, 8));
        assert(!occurs_from(a.remedy.0@, "josephine doctor"@, 0));
        assert(!occurs_from(a.remedy.0@, "josephine fix"@, 48));
        assert(!occurs_from(a.remedy.0@, "josephine fix"@, 40));
        assert(!occurs_from(a.remedy.0@, "josephine fix"@, 32));
        assert(!occurs_from(a.remedy.0@, "josephine fix"@, 24));
        assert(!occurs_from(a.remedy.0@, "josephine fix"@, 16));
        assert(!occurs_from(a.remedy.0@, "josephine fix"@, 8));
        assert(!occurs_from(a.remedy.0@, "josephine fix"@, 0));
    }
    assert(fit_remedy(a.remedy.1)) by {
        reveal_strlit("Enregistrez, puis redémarrez quand vous voulez : `systemctl reboot`.");
        reveal_strlit("josephine doctor");
        reveal_strlit("josephine fix");
        reveal_with_fuel(occurs_from, 10);
        reveal_with_fuel(matches_at, 18);
        assert(a.remedy.1@.len() <= 73);
        assert(!occurs_from(a.remedy.1@, "josephine doctor"@, 48));
        assert(!occurs_from(a.remedy.1@, "josephine doctor"@, 40));
        assert(!occurs_from(a.remedy.1@, "josephine doctor"@, 32));
        assert(!occurs_from(a.remedy.1@, "josephine doctor"@, 24));
        assert(!occurs_from(a.remedy.1@, "josephine doctor"@, 16));
        assert(!occurs_from(a.remedy.1@, "josephine doctor"@, 8));
        assert(!occurs_from(a.remedy.1@, "josephine doctor"@, 0));
        assert(!occurs_from(a.remedy.1@, "josephine fix"@, 48));
        assert(!occurs_from(a.remedy.1@, "josephine fix"@, 40));
        assert(!occurs_from(a.remedy.1@, "josephine fix"@, 32));
        assert(!occurs_from(a.remedy.1@, "josephine fix"@, 24));
        assert(!occurs_from(a.remedy.1@, "josephine fix"@, 16));
        assert(!occurs_from(a.remedy.1@, "josephine fix"@, 8));
        assert(!occurs_from(a.remedy.1@, "josephine fix"@, 0));
    }
}

#[verifier::spinoff_prover]
#[verifier::rlimit(100)]
proof fn lemma_advice_15_is_sound()
    ensures
        sound_advice(advice_table()[15]),
{
    let a = advice_table()[15];
    assert(bilingual(a.what)) by {
        reveal_strlit("Time tasks spend stalled waiting for memory, CPU or IO (Linux PSI).");
        reveal_strlit("Le temps passé par les tâches à attendre mémoire, CPU ou E/S (PSI).");
        lemma_trim_of_unpadded(a.what.0@);
        lemma_trim_of_unpadded(a.what.1@);
        assert(a.what.0@[0] != a.what.1@[0]);
    }
    assert(bilingual(a.why)) by {
        reveal_strlit("Rising pressure means the machine is thrashing — it slows well before it fails.");
        reveal_strlit("Une pression qui monte signale du thrashing — ça ralentit bien avant de lâcher.");
        lemma_trim_of_unpadded(a.why.0@);
        lemma_trim_of_unpadded(a.why.1@);
        assert(a.why.0@[0] != a.why.1@[0]);
    }
    assert(bilingual(a.remedy)) by {
        reveal_strlit("Close the biggest memory user; add swap or RAM if it keeps stalling.");
        reveal_strlit("Fermez le plus gros consommateur mémoire ; ajoutez swap ou RAM.");
        lemma_trim_of_unpadded(a.remedy.0@);
        lemma_trim_of_unpadded(a.remedy.1@);
        assert(a.remedy.0@.len() != a.remedy.1@.len());
    }
    assert(fit_remedy(a.remedy.0)) by {
        reveal_strlit("Close the biggest memory user; add swap or RAM if it keeps stalling.");
        reveal_strlit("josephine doctor");
        reveal_strlit("josephine fix");
        reveal_with_fuel(occurs_from, 10);
        reveal_with_fuel(matches_at, 18);
        assert(a.remedy.0@.len() <= 73);
        assert(!occurs_from(a.remedy.0@, "josephine doctor"@, 48));
        assert(!occurs_from(a.remedy.0@, "josephine doctor"@, 40));
        assert(!occurs_from(a.remedy.0@, "josephine doctor"@, 32));
        assert(!occurs_from(a.remedy.0@, "josephine doctor"@, 24));
        assert(!occurs_from(a.remedy.0@, "josephine doctor"@, 16));
        assert(!occurs_from(a.remedy.0@, "josephine doctor"@, 8));
        assert(!occurs_from(a.remedy.0@, "josephine doctor"@, 0));
        assert(!occurs_from(a.remedy.0@, "josephine fix"@, 48));
        assert(!occurs_from(a.remedy.0@, "josephine fix"@, 40));
        assert(!occurs_from(a.remedy.0@, "josephine fix"@, 32));
        assert(!occurs_from(a.remedy.0@, "josephine fix"@, 24));
        assert(!occurs_from(a.remedy.0@, "josephine fix"@, 16));
        assert(!occurs_from(a.remedy.0@, "josephine fix"@, 8));
        assert(!occurs_from(a.remedy.0@, "josephine fix"@, 0));
    }
    assert(fit_remedy(a.remedy.1)) by {
        reveal_strlit("Fermez le plus gros consommateur mémoire ; ajoutez swap ou RAM.");
        reveal_strlit("josephine doctor");
        reveal_strlit("josephine fix");
        reveal_with_fuel(occurs_from, 10);
        reveal_with_fuel(matches_at, 18);
        assert(!matches_at(a.remedy.1@, "josephine doctor"@, 44, 0));
        assert(!matches_at(a.remedy.1@, "josephine fix"@, 44, 0));
        assert(a.remedy.1@.len() <= 73);
        assert(!occurs_from(a.remedy.1@, "josephine doctor"@, 40));
        assert(!occurs_from(a.remedy.1@, "josephine doctor"@, 32));
        assert(!occurs_from(a.remedy.1@, "josephine doctor"@, 24));
        assert(!occurs_from(a.remedy.1@, "josephine doctor"@, 16));
        assert(!occurs_from(a.remedy.1@, "josephine doctor"@, 8));
        assert(!occurs_from(a.remedy.1@, "josephine doctor"@, 0));
        assert(!occurs_from(a.remedy.1@, "josephine fix"@, 48));
        assert(!occurs_from(a.remedy.1@, "josephine fix"@, 40));
        assert(!occurs_from(a.remedy.1@, "josephine fix"@, 32));
        assert(!occurs_from(a.remedy.1@, "josephine fix"@, 24));
        assert(!occurs_from(a.remedy.1@, "josephine fix"@, 16));
        assert(!occurs_from(a.remedy.1@, "josephine fix"@, 8));
        assert(!occurs_from(a.remedy.1@, "josephine fix"@, 0));
    }
}

/// Every check's advice is bilingual and never blank, and its remedies never
/// point back at `josephine doctor` (nor at the removed `josephine fix`) and
/// fit a terminal line.
pub proof fn lemma_advice_is_sound(i: int)
    requires
        0 <= i < advice_table().len(),
    ensures
        sound_advice(advice_table()[i]),
{
    if i == 0 {
        lemma_advice_0_is_sound();
    } else if i == 1 {
        lemma_advice_1_is_sound();
    } else if i == 2 {
        lemma_advice_2_is_sound();
    } else if i == 3 {
        lemma_advice_3_is_sound();
    } else if i == 4 {
        lemma_advice_4_is_sound();
    } else if i == 5 {
        lemma_advice_5_is_sound();
    } else if i == 6 {
        lemma_advice_6_is_sound();
    } else if i == 7 {
        lemma_advice_7_is_sound();
    } else if i == 8 {
        lemma_advice_8_is_sound();
    } else if i == 9 {
        lemma_advice_9_is_sound();
    } else if i == 10 {
        lemma_advice_10_is_sound();
    } else if i == 11 {
        lemma_advice_11_is_sound();
    } else if i == 12 {
        lemma_advice_12_is_sound();
    } else if i == 13 {
        lemma_advice_13_is_sound();
    } else if i == 14 {
        lemma_advice_14_is_sound();
    } else if i == 15 {
        lemma_advice_15_is_sound();
    }
}

/// At most this many entries per check in the "what's left to do" section;
/// beyond it, a counted overflow line. Nothing is dropped silently.
pub const MAX_ENTRIES_PER_CHECK: usize = 5;

/// One actionable step, ready to render.
pub struct Remedy {
    /// The action — usually a command to run.
    pub action: String,
    /// Optional second line: how to understand the problem before acting.
    pub hint: Option<String>,
}

/// A remedy as text: the action, and the hint when there is one.
pub open spec fn remedy_view(r: Remedy) -> (Seq<char>, Option<Seq<char>>) {
    (
        r.action@,
        match r.hint {
            Some(h) => Some(h@),
            None => None,
        },
    )
}

pub open spec fn remedy_views(v: Seq<Remedy>) -> Seq<(Seq<char>, Option<Seq<char>>)> {
    Seq::new(v.len(), |i: int| remedy_view(v[i]))
}

proof fn lemma_remedy_views_push(v: Seq<Remedy>, x: Remedy)
    ensures
        remedy_views(v.push(x)) == remedy_views(v).push(remedy_view(x)),
{
    assert(remedy_views(v.push(x)) =~= remedy_views(v).push(remedy_view(x)));
}

impl Remedy {
    fn action(action: String) -> (r: Self)
        ensures
            remedy_view(r) == (action@, None::<Seq<char>>),
    {
        Remedy { action, hint: None }
    }

    fn with_hint(action: String, hint: String) -> (r: Self)
        ensures
            remedy_view(r) == (action@, Some(hint@)),
    {
        Remedy { action, hint: Some(hint) }
    }
}

/// The restart command for a failed unit.
pub open spec fn restart_action(unit: Seq<char>) -> Seq<char> {
    "sudo systemctl restart "@ + unit
}

/// How to find out why a unit failed.
pub open spec fn restart_hint(lang: Lang, unit: Seq<char>) -> Seq<char> {
    match lang {
        Lang::En => "(find out why: systemctl status "@ + unit + ")"@,
        Lang::Fr => "(comprendre pourquoi : systemctl status "@ + unit + ")"@,
    }
}

/// The counted line for the failed units beyond the cap.
pub open spec fn overflow_line(lang: Lang, hidden: nat) -> Seq<char> {
    match lang {
        Lang::En => "+ "@ + decimal(hidden) + " more failed units — `systemctl --failed` lists them"@,
        Lang::Fr => "+ "@ + decimal(hidden) + " autres unités en échec — `systemctl --failed` les liste"@,
    }
}

/// How many units get their own entry.
pub open spec fn shown_units(n: nat) -> nat {
    if n <= MAX_ENTRIES_PER_CHECK {
        n
    } else {
        MAX_ENTRIES_PER_CHECK as nat
    }
}

/// One restart per failed unit, capped, with a counted overflow line.
pub open spec fn unit_remedies(lang: Lang, units: Seq<Seq<char>>) -> Seq<
    (Seq<char>, Option<Seq<char>>),
> {
    let listed = Seq::new(
        shown_units(units.len()),
        |i: int| (restart_action(units[i]), Some(restart_hint(lang, units[i]))),
    );
    if units.len() > MAX_ENTRIES_PER_CHECK {
        listed.push((overflow_line(lang, (units.len() - MAX_ENTRIES_PER_CHECK) as nat), None))
    } else {
        listed
    }
}

/// The top consumer, quoted verbatim.
pub open spec fn biggest_consumer(lang: Lang, top: Seq<char>) -> Seq<char> {
    match lang {
        Lang::En => "Biggest consumer right now: "@ + top,
        Lang::Fr => "Le plus gourmand en ce moment : "@ + top,
    }
}

/// The remedies for a result: none for a healthy or unknown check; one per
/// failed unit for `systemd`; the top consumer for `cpu` and `memory`; the
/// static advice otherwise (and as the fallback when there's no live state).
pub open spec fn remedies_for(lang: Lang, r: CheckResult) -> Seq<(Seq<char>, Option<Seq<char>>)> {
    if result_severity(r) == Severity::Info {
        seq![]
    } else {
        match advice_for(r.check_name@) {
            None => seq![],
            Some(a) => {
                let fallback = pick(lang, a.remedy)@;
                let top = string_views(r.top_processes@);
                if r.check_name@ == "systemd"@ && top.len() > 0 {
                    unit_remedies(lang, top)
                } else if (r.check_name@ == "cpu"@ || r.check_name@ == "memory"@) && top.len()
                    > 0 {
                    seq![(biggest_consumer(lang, top[0]), Some(fallback))]
                } else {
                    seq![(fallback, None)]
                }
            },
        }
    }
}

/// One restart per failed unit, capped, with a counted overflow line.
fn failed_units(lang: Lang, units: &Vec<String>) -> (r: Vec<Remedy>)
    ensures
        remedy_views(r@) == unit_remedies(lang, string_views(units@)),
{
    let ghost u = string_views(units@);
    let shown = if units.len() <= MAX_ENTRIES_PER_CHECK {
        units.len()
    } else {
        MAX_ENTRIES_PER_CHECK
    };
    let mut remedies: Vec<Remedy> = Vec::new();
    let mut i: usize = 0;
    while i < shown
        invariant
            i <= shown,
            shown == shown_units(units@.len()),
            shown <= units.len(),
            u == string_views(units@),
            remedy_views(remedies@) =~= Seq::new(
                i as nat,
                |k: int| (restart_action(u[k]), Some(restart_hint(lang, u[k]))),
            ),
        decreases shown - i,
    {
        let unit = units[i].as_str();
        let mut action: Vec<char> = Vec::new();
        push_str(&mut action, "sudo systemctl restart ");
        push_str(&mut action, unit);
        let mut hint: Vec<char> = Vec::new();
        match lang {
            Lang::En => push_str(&mut hint, "(find out why: systemctl status "),
            Lang::Fr => push_str(&mut hint, "(comprendre pourquoi : systemctl status "),
        }
        push_str(&mut hint, unit);
        push_str(&mut hint, ")");
        let r = Remedy::with_hint(string_of(&action), string_of(&hint));
        proof {
            lemma_remedy_views_push(remedies@, r);
        }
        remedies.push(r);
        i = i + 1;
    }
    if units.len() > MAX_ENTRIES_PER_CHECK {
        let hidden = units.len() - MAX_ENTRIES_PER_CHECK;
        let mut line: Vec<char> = Vec::new();
        push_str(&mut line, "+ ");
        push_decimal(&mut line, hidden as u64);
        match lang {
            Lang::En => push_str(&mut line, " more failed units — `systemctl --failed` lists them"),
            Lang::Fr => push_str(
                &mut line,
                " autres unités en échec — `systemctl --failed` les liste",
            ),
        }
        let r = Remedy::action(string_of(&line));
        proof {
            lemma_remedy_views_push(remedies@, r);
        }
        remedies.push(r);
    }
    remedies
}

/// The actions for a check that came back Attention or Critique.
///
/// Contextual where the collected state allows it (`systemd`, `cpu`,
/// `memory`), static [`Advice`] copy otherwise. A healthy check yields
/// nothing — Joséphine does not manufacture work.
pub fn for_result(lang: Lang, result: &CheckResult) -> (r: Vec<Remedy>)
    ensures
        remedy_views(r@) == remedies_for(lang, *result),
{
    if result.worst_severity() == Severity::Info {
        return Vec::new();
    }
    let a = match advice(result.check_name.as_str()) {
        Some(a) => a,
        None => {
            return Vec::new();
        },
    };
    let fallback = a.remedy(lang);
    let name = chars_of(result.check_name.as_str());
    let top = &result.top_processes;
    let ghost tv = string_views(top@);
    let mut out: Vec<Remedy> = Vec::new();
    if chars_eq_str(&name, "systemd") && top.len() > 0 {
        return failed_units(lang, top);
    }
    if (chars_eq_str(&name, "cpu") || chars_eq_str(&name, "memory")) && top.len() > 0 {
        assert(tv[0] == top@[0]@);
        let mut line: Vec<char> = Vec::new();
        match lang {
            Lang::En => push_str(&mut line, "Biggest consumer right now: "),
            Lang::Fr => push_str(&mut line, "Le plus gourmand en ce moment : "),
        }
        push_str(&mut line, top[0].as_str());
        let r = Remedy::with_hint(string_of(&line), owned(fallback));
        proof {
            lemma_remedy_views_push(out@, r);
        }
        out.push(r);
    } else {
        let r = Remedy::action(owned(fallback));
        proof {
            lemma_remedy_views_push(out@, r);
        }
        out.push(r);
    }
    out
}

/// The remedies never exceed the cap by more than the one overflow line, and
/// the listed units plus the counted overflow account for every failed unit.
pub proof fn lemma_nothing_dropped_silently(lang: Lang, units: Seq<Seq<char>>)
    ensures
        unit_remedies(lang, units).len() <= MAX_ENTRIES_PER_CHECK + 1,
        units.len() <= MAX_ENTRIES_PER_CHECK ==> unit_remedies(lang, units).len() == units.len()
            && forall|i: int|
            0 <= i < units.len() ==> #[trigger] unit_remedies(lang, units)[i] == (
                restart_action(units[i]),
                Some(restart_hint(lang, units[i])),
            ),
        units.len() > MAX_ENTRIES_PER_CHECK ==> unit_remedies(lang, units).len()
            == MAX_ENTRIES_PER_CHECK + 1 && unit_remedies(lang, units)[MAX_ENTRIES_PER_CHECK as int]
            == (overflow_line(lang, (units.len() - MAX_ENTRIES_PER_CHECK) as nat), None::<
            Seq<char>,
        >) && MAX_ENTRIES_PER_CHECK + (units.len() - MAX_ENTRIES_PER_CHECK) == units.len(),
{
}

/// A check in good health never gets a remedy, whatever its name and state.
pub proof fn lemma_healthy_gets_nothing(lang: Lang, r: CheckResult)
    requires
        result_severity(r) == Severity::Info,
    ensures
        remedies_for(lang, r).len() == 0,
{
}

/// For `cpu` and `memory` in default with a process list, the one remedy
/// quotes the first process listed — the heaviest — verbatim, with the static
/// advice as its hint.
pub proof fn lemma_top_consumer_is_quoted(lang: Lang, r: CheckResult)
    requires
        result_severity(r) != Severity::Info,
        r.check_name@ == "cpu"@ || r.check_name@ == "memory"@,
        r.top_processes@.len() > 0,
    ensures
        remedies_for(lang, r).len() == 1,
        remedies_for(lang, r)[0].0 == match lang {
            Lang::En => "Biggest consumer right now: "@ + r.top_processes@[0]@,
            Lang::Fr => "Le plus gourmand en ce moment : "@ + r.top_processes@[0]@,
        },
        remedies_for(lang, r)[0].1 is Some,
{
    let table = advice_table();
    reveal_strlit("cpu");
    reveal_strlit("memory");
    reveal_strlit("systemd");
    assert(table[0].name@ == "cpu"@);
    assert(table[1].name@ == "memory"@);
    assert(table.drop_first()[0] == table[1]);
    assert("cpu"@ != "memory"@) by {
        assert("cpu"@.len() != "memory"@.len());
    }
    assert(r.check_name@ != "systemd"@) by {
        assert("systemd"@.len() != "cpu"@.len() && "systemd"@.len() != "memory"@.len());
    }
    assert(advice_in(table, "cpu"@) == Some(table[0]));
    assert(advice_in(table.drop_first(), "memory"@) == Some(table[1]));
    assert(advice_in(table, "memory"@) == Some(table[1]));
    assert(advice_for(r.check_name@) is Some);
    assert(string_views(r.top_processes@)[0] == r.top_processes@[0]@);
}

/// A check in default whose name has advice always gets at least one remedy.
pub proof fn lemma_default_gets_something(lang: Lang, r: CheckResult)
    requires
        result_severity(r) != Severity::Info,
        advice_for(r.check_name@) is Some,
    ensures
        remedies_for(lang, r).len() >= 1,
{
}

} // verus!
