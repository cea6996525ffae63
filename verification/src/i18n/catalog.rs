//! The message catalog: every piece of UI copy with a stable key, its German
//! text and its English text.

use vstd::prelude::*;

verus! {

/// The number of entries in the catalog.
pub const CATALOG_LEN: usize = 213;

/// Entry `i` of the catalog: stable key, German text, English text. The
/// German texts are the historical UI copy and the fallback language; the
/// `ERR_*` keys double as the codes the database triggers raise.
#[verifier::opaque]
pub open spec fn catalog(i: int) -> (&'static str, &'static str, &'static str) {
    if i == 0 {
        ("nav.buildings", "Gebäude", "Buildings")
    } else if i == 1 {
        ("nav.people", "Personen", "People")
    } else if i == 2 {
        ("brand.alt", "Kehrkraft-Logo", "Kehrkraft logo")
    } else if i == 3 {
        ("lang.switch", "Sprache wählen", "Choose language")
    } else if i == 4 {
        ("footer.tagline", "Kehrkraft · Kehrwoche-Rotationsplan", "Kehrkraft · Kehrwoche rotation schedule")
    } else if i == 5 {
        ("form.name_max", "(max. 30 Zeichen)", "(max. 30 characters)")
    } else if i == 6 {
        ("form.optional", "(optional)", "(optional)")
    } else if i == 7 {
        ("form.description", "Beschreibung", "Description")
    } else if i == 8 {
        ("form.email", "E-Mail", "E-mail")
    } else if i == 9 {
        ("form.ownership_from", "Eigentum ab", "Ownership from")
    } else if i == 10 {
        ("common.cancel", "Abbrechen", "Cancel")
    } else if i == 11 {
        ("common.edit", "Bearbeiten", "Edit")
    } else if i == 12 {
        ("common.delete", "Löschen", "Delete")
    } else if i == 13 {
        ("common.save_changes", "Änderungen speichern", "Save changes")
    } else if i == 14 {
        ("common.yes_end_anyway", "Ja, dennoch beenden", "Yes, end it anyway")
    } else if i == 15 {
        ("common.no_dont_end", "Nein, nicht beenden", "No, don't end it")
    } else if i == 16 {
        ("common.not_found", "Nicht gefunden", "Not found")
    } else if i == 17 {
        ("table.email", "E-Mail", "E-mail")
    } else if i == 18 {
        ("table.start", "Beginn", "Start")
    } else if i == 19 {
        ("table.end", "Ende", "End")
    } else if i == 20 {
        ("suggestions.help", "Bekannte Personen erscheinen bei der Eingabe als Vorschlag; dieselbe E-Mail-Adresse bedeutet dieselbe Person.", "Known people appear as suggestions while you type; the same e-mail address always means the same person.")
    } else if i == 21 {
        ("buildings.heading", "Gebäude", "Buildings")
    } else if i == 22 {
        ("buildings.new", "Neues Gebäude", "New building")
    } else if i == 23 {
        ("buildings.empty", "Noch keine Gebäude.", "No buildings yet.")
    } else if i == 24 {
        ("buildings.empty_cta", "Lege dein erstes Gebäude an", "Create your first building")
    } else if i == 25 {
        ("buildings.delete_confirm", "Dieses Gebäude samt aller Wohnungen löschen?", "Delete this building and all of its apartments?")
    } else if i == 26 {
        ("buildings.new_title", "Neues Gebäude anlegen", "Create a new building")
    } else if i == 27 {
        ("buildings.edit_title", "Gebäude bearbeiten", "Edit building")
    } else if i == 28 {
        ("buildings.contact_label", "Ansprechpartner", "Contact person")
    } else if i == 29 {
        ("buildings.new_contact_help", "Beide Felder leer lassen, wenn es keinen Ansprechpartner geben soll. Bekannte Personen erscheinen bei der Eingabe als Vorschlag; dieselbe E-Mail-Adresse bedeutet dieselbe Person.", "Leave both fields empty when there is no contact person. Known people appear as suggestions while you type; the same e-mail address always means the same person.")
    } else if i == 30 {
        ("buildings.edit_contact_help", "Beide Felder leer lassen, um den bisherigen Ansprechpartner zu behalten. Bekannte Personen erscheinen bei der Eingabe als Vorschlag; dieselbe E-Mail-Adresse bedeutet dieselbe Person.", "Leave both fields empty to keep the current contact person. Known people appear as suggestions while you type; the same e-mail address always means the same person.")
    } else if i == 31 {
        ("buildings.ownership_label", "Eigentumsverhältnisse", "Ownership structure")
    } else if i == 32 {
        ("buildings.ownership_help", "Entscheiden Sie sich für eine der beiden Formen – die Aufteilung eines von einer Person besessenen Gebäudes in einzelne Eigentumswohnungen (WEG) wird von Kehrkraft nicht unterstützt.", "Choose one of the two forms – splitting a building owned by a single person into individually owned apartments (WEG) is not supported by Kehrkraft.")
    } else if i == 33 {
        ("buildings.style_apartments", "Einzelne Wohnungen: Jede Wohnung gehört einer eigenen Person oder Gesellschaft (WEG). Beim Anlegen jeder Wohnung ist ihr erster Eigentümer anzugeben.", "Individual apartments: each apartment belongs to its own person or company (WEG). When creating an apartment, its first owner must be provided.")
    } else if i == 34 {
        ("buildings.style_building", "Ein Gebäudeeigentümer: Eine Person oder Gesellschaft besitzt das ganze Gebäude (z. B. eine Wohnungsgesellschaft). Die Wohnungen gehören dann mit zum Gebäude – einzelne Wohnungseigentümer gibt es nicht.", "One building owner: a single person or company owns the whole building (e.g. a housing company). The apartments then come with the building – there are no individual apartment owners.")
    } else if i == 35 {
        ("buildings.owner_help", "Wer ist der Gebäudeeigentümer? Bekannte Personen erscheinen bei der Eingabe als Vorschlag; dieselbe E-Mail-Adresse bedeutet dieselbe Person.", "Who is the building owner? Known people appear as suggestions while you type; the same e-mail address always means the same person.")
    } else if i == 36 {
        ("buildings.create", "Gebäude anlegen", "Create building")
    } else if i == 37 {
        ("buildings.save", "Gebäude speichern", "Save building")
    } else if i == 38 {
        ("buildings.owner_required", "Für ein Gebäude mit einem einzigen Eigentümer müssen Name, E-Mail-Adresse und Beginn („Eigentum ab“) angegeben werden.", "For a building with a single owner, the name, e-mail address and start date (“Ownership from”) must be provided.")
    } else if i == 39 {
        ("buildings.contact_label_line", "Ansprechpartner:", "Contact person:")
    } else if i == 40 {
        ("buildings.public_pdf", "Plan als öffentliches PDF", "Schedule as public PDF")
    } else if i == 41 {
        ("buildings.public_ical", "öffentlicher iCal-Feed", "Public iCal feed")
    } else if i == 42 {
        ("buildings.schedule_heading", "Kehrwochen-Plan", "Kehrwoche schedule")
    } else if i == 43 {
        ("buildings.full_year", "Kompletter Jahresplan", "Full-year schedule")
    } else if i == 44 {
        ("buildings.no_upcoming", "Für dieses Jahr sind keine kommenden Wochen mehr eingeplant.", "No upcoming weeks of this year remain scheduled.")
    } else if i == 45 {
        ("schedule.week", "KW", "CW")
    } else if i == 46 {
        ("schedule.from", "von", "From")
    } else if i == 47 {
        ("schedule.to", "bis", "To")
    } else if i == 48 {
        ("schedule.tenant", "Mieter", "Tenant")
    } else if i == 49 {
        ("schedule.unassigned", "Nicht zugewiesen", "Unassigned")
    } else if i == 50 {
        ("buildings.apartments_heading", "Wohnungen", "Apartments")
    } else if i == 51 {
        ("buildings.saving_order", "Speichere Reihenfolge …", "Saving order …")
    } else if i == 52 {
        ("apartments.new", "Neue Wohnung", "New apartment")
    } else if i == 53 {
        ("buildings.no_apartments", "Noch keine Wohnungen.", "No apartments yet.")
    } else if i == 54 {
        ("buildings.sort_hint", "Die Reihenfolge in dieser Liste dient nur der Anzeige; die Kehrwoche-Rotation folgt der Anlage-Reihenfolge der Wohnungen (Badge „Rotation“).", "The order of this list only affects the display; the Kehrwoche rotation follows the apartments' creation order (badge “Rotation”).")
    } else if i == 55 {
        ("apartments.drag_title", "Zum Sortieren ziehen", "Drag to sort")
    } else if i == 56 {
        ("buildings.building_owners_heading", "Gebäudeeigentümer", "Building owners")
    } else if i == 57 {
        ("buildings.owners_blocked", "Nicht möglich, solange Wohnungen eigene Eigentümer haben (WEG).", "Not possible while the apartments have owners of their own (WEG).")
    } else if i == 58 {
        ("owners.add", "Eigentümer hinzufügen", "Add owner")
    } else if i == 59 {
        ("buildings.no_building_owner", "Kein Eigentümer für das gesamte Gebäude erfasst – dann braucht jede Wohnung einen eigenen Eigentümer.", "No owner is recorded for the building as a whole – each apartment then needs an owner of its own.")
    } else if i == 60 {
        ("buildings.building_owner_help", "Der Gebäudeeigentümer besitzt alle Wohnungen; einzelne Wohnungseigentümer sind dann nicht erforderlich. Vermietete Wohnungen delegieren die Kehrwoche weiterhin an den Mieter.", "The building owner owns all apartments; individual apartment owners are then not required. Rented apartments still delegate the Kehrwoche to their tenant.")
    } else if i == 61 {
        ("building_owner.delete_confirm", "Diesen Gebäudeeigentümer löschen?", "Delete this building owner?")
    } else if i == 62 {
        ("buildings.owner_chain_help", "Die Zeiträume reihen sich lückenlos aneinander: Ein neuer Eigentümer beginnt am Tag nach dem Ende des vorherigen.", "The periods follow each other seamlessly: a new owner starts on the day after the previous one ends.")
    } else if i == 63 {
        ("danger_zone.heading", "Gefahrenzone", "Danger zone")
    } else if i == 64 {
        ("buildings.rotation_confirm", "Rotations-Versatz dieses Gebäudes ändern? Die Kehrwoche-Zuordnung aller Wochen verschiebt sich sofort – auch für bereits vergangene Wochen.", "Change this building's rotation offset? The Kehrwoche assignment of every week shifts immediately – including past weeks.")
    } else if i == 65 {
        ("buildings.rotation_label", "Rotations-Versatz", "Rotation offset")
    } else if i == 66 {
        ("buildings.rotation_help", "Verschiebt den Beginn der Rotation: Nach jedem Schritt übernimmt die nächste Wohnung die erste Woche (0 = Standard). Gilt sofort für alle Wochen des Plans.", "Shifts the start of the rotation: after each step, the next apartment takes over the first week (0 = default). Applies immediately to every week of the schedule.")
    } else if i == 67 {
        ("common.apply", "Anwenden", "Apply")
    } else if i == 68 {
        ("buildings.delete_help", "Löscht das Gebäude samt aller Wohnungen, Eigentümer und Mietverhältnisse.", "Deletes the building along with all of its apartments, owners and tenancies.")
    } else if i == 69 {
        ("buildings.delete", "Gebäude löschen", "Delete building")
    } else if i == 70 {
        ("schedule.title", "Jahresplan", "Annual schedule")
    } else if i == 71 {
        ("schedule.resident_links", "Bewohner-Links", "Resident links")
    } else if i == 72 {
        ("schedule.back_to_building", "Zurück zum Gebäude", "Back to the building")
    } else if i == 73 {
        ("apartments.new_for", "Neue Wohnung: {0}", "New apartment: {0}")
    } else if i == 74 {
        ("apartments.edit_title", "Wohnung bearbeiten", "Edit apartment")
    } else if i == 75 {
        ("apartments.save", "Wohnung speichern", "Save apartment")
    } else if i == 76 {
        ("apartments.create", "Wohnung anlegen", "Create apartment")
    } else if i == 77 {
        ("apartments.first_owner", "Erster Eigentümer", "First owner")
    } else if i == 78 {
        ("apartments.building_owned_help", "Das Gebäude gehört als Ganzes dem Gebäudeeigentümer – die Wohnung hat daher keinen eigenen Eigentümer. Einzelne Wohnungseigentümer gibt es erst, wenn das Gebäude in Wohnungseigentum aufgeteilt wird (WEG); das unterstützt Kehrkraft nicht.", "The building belongs as a whole to the building owner – this apartment therefore has no owner of its own. Individual apartment owners only exist once the building is split into condominium units (WEG); Kehrkraft does not support such a split.")
    } else if i == 79 {
        ("apartments.owner_required_help", "Eine Wohnung braucht immer mindestens einen Eigentümer; der erste wird zusammen mit der Wohnung angelegt.", "An apartment always needs at least one owner; the first one is created together with the apartment.")
    } else if i == 80 {
        ("apartments.ownership_until", "Eigentum bis", "Ownership until")
    } else if i == 81 {
        ("apartments.owners_heading", "Eigentümer", "Owners")
    } else if i == 82 {
        ("apartments.no_owners", "Keine Eigentümer erfasst.", "No owners recorded.")
    } else if i == 83 {
        ("apartments.owner_delete_confirm", "Dieses Eigentum löschen?", "Delete this ownership?")
    } else if i == 84 {
        ("apartments.weg_notice", "Das Gebäude gehört als Ganzes dem Gebäudeeigentümer. Eigentümer einzelner Wohnungen gibt es rechtlich nicht, solange das Gebäude nicht in Wohnungseigentum aufgeteilt ist (WEG). Eine solche Aufteilung unterstützt Kehrkraft nicht.", "The building belongs as a whole to the building owner. There are legally no owners of individual apartments unless the building is split into condominium units (WEG). Kehrkraft does not support such a split.")
    } else if i == 85 {
        ("apartments.owner_confirm_question", "{0} ist derzeit als Eigentümerin bzw. Eigentümer über den {1} hinaus erfasst. Soll das bisherige Eigentum am {2} (dem Tag vor dem neuen Beginn) enden?", "{0} is currently recorded as the owner beyond {1}. Should the previous ownership end on {2} (the day before the new one begins)?")
    } else if i == 86 {
        ("apartments.owner_confirm_help", "Wenn Sie das nicht bestätigen, schlägt das Anlegen des neuen Eigentums fehl.", "If you do not confirm this, adding the new ownership will fail.")
    } else if i == 87 {
        ("apartments.close_previous_owner", "Ja, bisheriges Eigentum beenden und hinzufügen", "Yes, end the previous ownership and add the new one")
    } else if i == 88 {
        ("apartments.tenants_heading", "Mieter", "Tenants")
    } else if i == 89 {
        ("apartments.tenant_delegation_help", "Besteht während einer Woche ein Mietverhältnis, wird die Kehrwoche an den Mieter delegiert. Überlappende Mietverhältnisse lehnt die Anwendung ab.", "When a tenancy covers a week, the Kehrwoche is delegated to the tenant. Overlapping tenancies are rejected by the application.")
    } else if i == 90 {
        ("apartments.no_tenancies", "Keine Mietverhältnisse erfasst.", "No tenancies recorded.")
    } else if i == 91 {
        ("apartments.tenant_delete_confirm", "Dieses Mietverhältnis löschen?", "Delete this tenancy?")
    } else if i == 92 {
        ("apartments.add_tenant", "Mieter hinzufügen", "Add tenant")
    } else if i == 93 {
        ("apartments.tenant_confirm_question", "Das bisherige Mietverhältnis von {0} besteht derzeit über den {1} hinaus. Soll es am {2} (dem Tag vor dem neuen Mietbeginn) enden?", "The previous tenancy of {0} currently runs beyond {1}. Should it end on {2} (the day before the new tenancy begins)?")
    } else if i == 94 {
        ("apartments.tenant_confirm_help", "Wenn Sie das nicht bestätigen, schlägt das Anlegen des neuen Mietverhältnisses fehl.", "If you do not confirm this, adding the new tenancy will fail.")
    } else if i == 95 {
        ("apartments.close_previous_tenant", "Ja, bisheriges Mietverhältnis beenden und hinzufügen", "Yes, end the previous tenancy and add the new one")
    } else if i == 96 {
        ("tenancy.start", "Mietbeginn", "Tenancy from")
    } else if i == 97 {
        ("tenancy.end", "Mietende", "Tenancy until")
    } else if i == 98 {
        ("apartments.delete_confirm", "Diese Wohnung löschen?", "Delete this apartment?")
    } else if i == 99 {
        ("ownership.edit_title", "Eigentümer bearbeiten", "Edit owner")
    } else if i == 100 {
        ("ownership.edit_title_with", "Eigentümer bearbeiten: {0}", "Edit owner: {0}")
    } else if i == 101 {
        ("ownership.breadcrumb", "Eigentümer: {0}", "Owner: {0}")
    } else if i == 102 {
        ("ownership.edit_subtitle", "Wohnung {0} ({1})", "Apartment {0} ({1})")
    } else if i == 103 {
        ("ownership.end_warning", "Das Enddatum {0} liegt vor dem heutigen Tag. Ab dem {1} hätte die Wohnung bis zur Erfassung eines neuen Eigentümers keinen Eigentümer mehr.", "The end date {0} lies before today. From {1} on, the apartment would have no owner until a new owner is recorded.")
    } else if i == 104 {
        ("ownership.end_warning_help", "Wenn Sie das nicht beabsichtigen, wählen Sie „Nein, nicht beenden“ oder ändern Sie das Enddatum.", "If that is not what you intend, choose “No, don't end it” or change the end date.")
    } else if i == 105 {
        ("ownership.person_help", "Name und E-Mail-Adresse gehören zur Person und gelten damit für alle Zeiträume, in denen sie als Eigentümerin oder Eigentümer geführt wird. Ein neues „Eigentum ab“ muss lückenlos an die übrigen Zeiträume der Wohnung anschließen.", "Name and e-mail address belong to the person and therefore apply to every period in which they are recorded as the owner. A new “Ownership from” date must seamlessly follow the apartment's other periods.")
    } else if i == 106 {
        ("tenancy.edit_title", "Mieter bearbeiten", "Edit tenant")
    } else if i == 107 {
        ("tenancy.edit_title_with", "Mieter bearbeiten: {0}", "Edit tenant: {0}")
    } else if i == 108 {
        ("tenancy.breadcrumb", "Mieter: {0}", "Tenant: {0}")
    } else if i == 109 {
        ("tenancy.edit_subtitle", "Wohnung {0} ({1})", "Apartment {0} ({1})")
    } else if i == 110 {
        ("tenancy.person_help", "Name und E-Mail-Adresse gehören zur Person und gelten damit für alle Zeiträume, in denen sie geführt wird – auch als Eigentümerin oder Eigentümer.", "Name and e-mail address belong to the person and therefore apply to every period in which they are recorded – also as an owner.")
    } else if i == 111 {
        ("building_owner.new_title", "Gebäudeeigentümer hinzufügen", "Add building owner")
    } else if i == 112 {
        ("building_owner.edit_title", "Gebäudeeigentümer bearbeiten", "Edit building owner")
    } else if i == 113 {
        ("building_owner.form_help", "Ein Gebäudeeigentümer besitzt alle Wohnungen des Gebäudes; einzelne Wohnungseigentümer sind dann nicht erforderlich.", "A building owner owns all apartments of the building; individual apartment owners are then not required.")
    } else if i == 114 {
        ("building_owner.confirm_question", "{0} ist derzeit als Gebäudeeigentümer über den {1} hinaus erfasst. Soll das bisherige Gebäudeeigentum am {2} (dem Tag vor dem neuen Beginn) enden?", "{0} is currently recorded as the building owner beyond {1}. Should the previous building ownership end on {2} (the day before the new one begins)?")
    } else if i == 115 {
        ("building_owner.confirm_help", "Wenn Sie das nicht bestätigen, schlägt das Anlegen des neuen Gebäudeeigentümers fehl.", "If you do not confirm this, adding the new building owner will fail.")
    } else if i == 116 {
        ("building_owner.end_warning", "Das Enddatum {0} liegt vor dem heutigen Tag. Ab dem {1} hätte das Gebäude bis zur Erfassung eines neuen Gebäudeeigentümers keinen Eigentümer mehr.", "The end date {0} lies before today. From {1} on, the building would have no owner until a new building owner is recorded.")
    } else if i == 117 {
        ("building_owner.end_warning_help", "Wenn Sie das nicht beabsichtigen, wählen Sie „Nein, nicht beenden“ oder ändern Sie das Enddatum.", "If that is not what you intend, choose “No, don't end it” or change the end date.")
    } else if i == 118 {
        ("building_owner.person_help", "Name und E-Mail-Adresse gehören zur Person und gelten damit für alle Zeiträume, in denen sie als Eigentümerin oder Eigentümer geführt wird. Ein neues „Eigentum ab“ muss an den vorherigen Gebäudeeigentümer anschließen.", "Name and e-mail address belong to the person and therefore apply to every period in which they are recorded as the owner. A new “Ownership from” date must follow the previous building owner.")
    } else if i == 119 {
        ("building_owner.close_previous", "Ja, bisheriges Gebäudeeigentum beenden und hinzufügen", "Yes, end the previous building ownership and add the new one")
    } else if i == 120 {
        ("people.subtitle", "Jede Person wird nur einmal geführt – als Eigentümerin oder Eigentümer, Gebäudeeigentümer, Mieterin oder Mieter und Ansprechpartnerin oder Ansprechpartner. Dieselbe E-Mail-Adresse bedeutet dieselbe Person.", "Each person is kept only once – as an owner, building owner, tenant or contact person. The same e-mail address always means the same person.")
    } else if i == 121 {
        ("people.empty", "Noch keine Personen erfasst. Personen entstehen zusammen mit Eigentum, Mietverhältnissen oder Ansprechpartnern.", "No people recorded yet. People come into being together with ownerships, tenancies or contact persons.")
    } else if i == 122 {
        ("person.contact_heading", "Kontaktdaten", "Contact details")
    } else if i == 123 {
        ("person.email_help", "Die E-Mail-Adresse ist die Identität der Person: Name und Adresse gelten überall dort, wo die Person geführt wird – Eigentum, Mietverhältnisse, Ansprechpartner. Eine Adresse, die bereits einer anderen Person gehört, wird abgelehnt.", "The e-mail address is the person's identity: the name and address apply wherever the person is recorded – ownerships, tenancies, contacts. An address that already belongs to another person is rejected.")
    } else if i == 124 {
        ("person.roles_heading", "Rollen", "Roles")
    } else if i == 125 {
        ("person.no_roles", "Keine Rollen erfasst.", "No roles recorded.")
    } else if i == 126 {
        ("role.contact", "Ansprechpartner von", "Contact person for")
    } else if i == 127 {
        ("role.building_owner", "Gebäudeeigentümer von", "Building owner of")
    } else if i == 128 {
        ("role.owner", "Eigentümer von", "Owner of")
    } else if i == 129 {
        ("role.tenant", "Mieter von", "Tenant of")
    } else if i == 130 {
        ("role.since", "seit {0}", "since {0}")
    } else if i == 131 {
        ("role.range", "von {0} bis {1}", "from {0} to {1}")
    } else if i == 132 {
        ("role.since_in", "; seit {0}", "; since {0}")
    } else if i == 133 {
        ("role.range_in", "; von {0} bis {1}", "; from {0} to {1}")
    } else if i == 134 {
        ("role.label.contact", "Ansprechpartner von {0}", "Contact person for {0}")
    } else if i == 135 {
        ("role.label.building_owner", "Gebäudeeigentümer von {0}", "Building owner of {0}")
    } else if i == 136 {
        ("role.label.owner", "Eigentümer von {0} ({1})", "Owner of {0} ({1})")
    } else if i == 137 {
        ("role.label.tenant", "Mieter von {0} ({1})", "Tenant of {0} ({1})")
    } else if i == 138 {
        ("people.more_roles", " · +{0} weitere", " · +{0} more")
    } else if i == 139 {
        ("ownership.decline_close", "Ohne das bisherige Eigentum von {0} am {1} zu beenden, kann das neue Eigentum nicht angelegt werden.", "Without ending the previous ownership of {0} on {1}, the new ownership cannot be created.")
    } else if i == 140 {
        ("ownership.gap_dates", "Das Eigentum muss am Tag nach dem Ende des vorherigen Eigentums beginnen; das vorherige Eigentum endet am {0}, der neue Beginn muss am {1} liegen (nicht am {2}).", "The ownership must start on the day after the previous ownership ends; the previous ownership ends on {0}, so the new start must be {1} (not {2}).")
    } else if i == 141 {
        ("tenancy.decline_close", "Ohne das bisherige Mietverhältnis von {0} am {1} zu beenden, kann das neue Mietverhältnis nicht angelegt werden.", "Without ending the previous tenancy of {0} on {1}, the new tenancy cannot be created.")
    } else if i == 142 {
        ("building_owner.decline_close", "Ohne das bisherige Gebäudeeigentum von {0} am {1} zu beenden, kann der neue Gebäudeeigentümer nicht angelegt werden.", "Without ending the previous building ownership of {0} on {1}, the new building owner cannot be created.")
    } else if i == 143 {
        ("building_owner.gap_dates", "Das Gebäudeeigentum muss am Tag nach dem Ende des vorherigen Gebäudeeigentums beginnen; das vorherige Gebäudeeigentum endet am {0}, der neue Beginn muss am {1} liegen (nicht am {2}).", "The building ownership must start on the day after the previous building ownership ends; the previous building ownership ends on {0}, so the new start must be {1} (not {2}).")
    } else if i == 144 {
        ("error.not_found", "Nicht gefunden", "Not found")
    } else if i == 145 {
        ("error.buildings_load", "Gebäude konnten nicht geladen werden.", "The buildings could not be loaded.")
    } else if i == 146 {
        ("error.building_load", "Gebäude konnte nicht geladen werden.", "The building could not be loaded.")
    } else if i == 147 {
        ("error.building_create", "Gebäude konnte nicht angelegt werden.", "The building could not be created.")
    } else if i == 148 {
        ("error.building_save", "Gebäude konnte nicht gespeichert werden.", "The building could not be saved.")
    } else if i == 149 {
        ("error.apartments_load", "Wohnungen konnten nicht geladen werden.", "The apartments could not be loaded.")
    } else if i == 150 {
        ("error.apartment_load", "Wohnung konnte nicht geladen werden.", "The apartment could not be loaded.")
    } else if i == 151 {
        ("error.apartment_create", "Wohnung konnte nicht angelegt werden.", "The apartment could not be created.")
    } else if i == 152 {
        ("error.apartment_save", "Wohnung konnte nicht gespeichert werden.", "The apartment could not be saved.")
    } else if i == 153 {
        ("error.apartment_data_load", "Wohnungsdaten konnten nicht geladen werden.", "The apartment data could not be loaded.")
    } else if i == 154 {
        ("error.building_owners_load", "Gebäudeeigentümer konnten nicht geladen werden.", "The building owners could not be loaded.")
    } else if i == 155 {
        ("error.building_owner_load", "Gebäudeeigentümer konnte nicht geladen werden.", "The building owner could not be loaded.")
    } else if i == 156 {
        ("error.building_owner_create", "Gebäudeeigentümer konnte nicht angelegt werden.", "The building owner could not be created.")
    } else if i == 157 {
        ("error.building_owner_save", "Gebäudeeigentümer konnte nicht gespeichert werden.", "The building owner could not be saved.")
    } else if i == 158 {
        ("error.building_owner_delete", "Gebäudeeigentümer konnte nicht gelöscht werden.", "The building owner could not be deleted.")
    } else if i == 159 {
        ("error.schedule_compute", "Der Plan konnte nicht berechnet werden.", "The schedule could not be computed.")
    } else if i == 160 {
        ("error.ownership_load", "Eigentum konnte nicht geladen werden.", "The ownership could not be loaded.")
    } else if i == 161 {
        ("error.ownership_create", "Eigentum konnte nicht angelegt werden.", "The ownership could not be created.")
    } else if i == 162 {
        ("error.ownership_save", "Eigentum konnte nicht gespeichert werden.", "The ownership could not be saved.")
    } else if i == 163 {
        ("error.ownership_delete", "Eigentum konnte nicht gelöscht werden.", "The ownership could not be deleted.")
    } else if i == 164 {
        ("error.ownership_structure_load", "Eigentumsverhältnisse konnten nicht geladen werden.", "The ownership structure could not be loaded.")
    } else if i == 165 {
        ("error.tenancy_load", "Mietverhältnis konnte nicht geladen werden.", "The tenancy could not be loaded.")
    } else if i == 166 {
        ("error.tenancy_create", "Mietverhältnis konnte nicht angelegt werden.", "The tenancy could not be created.")
    } else if i == 167 {
        ("error.tenancy_save", "Mietverhältnis konnte nicht gespeichert werden.", "The tenancy could not be saved.")
    } else if i == 168 {
        ("error.people_load", "Personen konnten nicht geladen werden.", "The people could not be loaded.")
    } else if i == 169 {
        ("error.person_load", "Person konnte nicht geladen werden.", "The person could not be loaded.")
    } else if i == 170 {
        ("error.person_save", "Person konnte nicht gespeichert werden.", "The person could not be saved.")
    } else if i == 171 {
        ("error.roles_load", "Rollen konnten nicht geladen werden.", "The roles could not be loaded.")
    } else if i == 172 {
        ("error.rotation_save", "Rotations-Versatz konnte nicht gespeichert werden.", "The rotation offset could not be saved.")
    } else if i == 173 {
        ("error.apartment_order", "Ungültige Reihenfolge der Wohnungen", "Invalid apartment order")
    } else if i == 174 {
        ("error.order_save", "Die Reihenfolge konnte nicht gespeichert werden.", "The order could not be saved.")
    } else if i == 175 {
        ("error.apartments_reload", "Wohnungen konnten nicht neu geladen werden.", "The apartments could not be reloaded.")
    } else if i == 176 {
        ("demo.banner", "Demo-Modus", "Demo mode")
    } else if i == 177 {
        ("pdf.col_from", "von", "From")
    } else if i == 178 {
        ("pdf.col_to", "bis", "To")
    } else if i == 179 {
        ("pdf.qr_pdf", "Kehrwoche-PDF per QR öffnen", "Open the Kehrwoche PDF via QR code")
    } else if i == 180 {
        ("pdf.qr_ical", "Kalender-Feed per QR abonnieren", "Subscribe to the calendar feed via QR code")
    } else if i == 181 {
        ("pdf.footer_created", "Erstellt mit Kehrkraft v{0}", "Created with Kehrkraft v{0}")
    } else if i == 182 {
        ("pdf.footer_as_of", "Stand: {0}", "As of {0}")
    } else if i == 183 {
        ("ical.summary", "Kehrwoche KW {0}: {1}", "Kehrwoche CW {0}: {1}")
    } else if i == 184 {
        ("ical.building", "Gebäude: {0}", "Building: {0}")
    } else if i == 185 {
        ("ERR_NAME_EMPTY", "Name darf nicht leer sein.", "The name must not be empty.")
    } else if i == 186 {
        ("ERR_NAME_TOO_LONG", "Name darf höchstens 30 Zeichen haben.", "The name must not exceed 30 characters.")
    } else if i == 187 {
        ("ERR_EMAIL_AT", "Die E-Mail-Adresse muss ein '@' enthalten.", "The e-mail address must contain an '@'.")
    } else if i == 188 {
        ("ERR_EMAIL_DOT", "Die E-Mail-Adresse muss nach dem '@' einen Punkt enthalten.", "The part of the e-mail address after the '@' must contain a dot.")
    } else if i == 189 {
        ("ERR_START_DATE_FORMAT", "Startdatum muss im Format JJJJ-MM-TT vorliegen.", "The start date must use the format YYYY-MM-DD.")
    } else if i == 190 {
        ("ERR_END_DATE_FORMAT", "Enddatum muss im Format JJJJ-MM-TT vorliegen.", "The end date must use the format YYYY-MM-DD.")
    } else if i == 191 {
        ("ERR_START_AFTER_END", "Das Startdatum darf nicht nach dem Enddatum liegen.", "The start date must not lie after the end date.")
    } else if i == 192 {
        ("ERR_OWNERSHIP_OVERLAP", "Das Eigentum überschneidet ein bestehendes Eigentum dieser Wohnung", "The ownership overlaps an existing ownership of this apartment")
    } else if i == 193 {
        ("ERR_TENANCY_OVERLAP", "Das Mietverhältnis überschneidet ein bestehendes Mietverhältnis dieser Wohnung.", "The tenancy overlaps an existing tenancy of this apartment.")
    } else if i == 194 {
        ("ERR_BUILDING_OWNER_OVERLAP", "Das Gebäudeeigentum überschneidet ein bestehendes Gebäudeeigentum", "The building ownership overlaps an existing building ownership")
    } else if i == 195 {
        ("ERR_OWNERSHIP_GAP_NEXT_START", "Das Eigentum muss am Tag nach dem Ende des vorherigen Eigentums beginnen; sonst bliebe ein Zeitraum ohne Eigentümer.", "The ownership must start on the day after the previous ownership ends; otherwise there would be a period without an owner.")
    } else if i == 196 {
        ("ERR_BUILDING_OWNER_GAP_NEXT_START", "Das Gebäudeeigentum muss am Tag nach dem Ende des vorherigen Gebäudeeigentums beginnen; sonst bliebe ein Zeitraum ohne Eigentümer.", "The building ownership must start on the day after the previous building ownership ends; otherwise there would be a period without an owner.")
    } else if i == 197 {
        ("ERR_OWNERSHIP_GAP_PREV_END", "Das Eigentum muss am Tag vor dem Beginn des nächsten Eigentums enden; sonst bliebe ein Zeitraum ohne Eigentümer.", "The ownership must end on the day before the next ownership begins; otherwise there would be a period without an owner.")
    } else if i == 198 {
        ("ERR_BUILDING_OWNER_GAP_PREV_END", "Das Gebäudeeigentum muss am Tag vor dem Beginn des nächsten Gebäudeeigentums enden; sonst bliebe ein Zeitraum ohne Eigentümer.", "The building ownership must end on the day before the next building ownership begins; otherwise there would be a period without an owner.")
    } else if i == 199 {
        ("ERR_OWNERSHIP_LAST_DELETE", "Das letzte Eigentum einer Wohnung kann nicht gelöscht werden, sonst hat die Wohnung keinen Eigentümer.", "The last ownership of an apartment cannot be deleted, or the apartment would have no owner.")
    } else if i == 200 {
        ("ERR_OWNERSHIP_MIDDLE_DELETE", "Dieses Eigentum liegt zwischen zwei anderen Eigentümerzeiträumen. Es kann nur das erste oder das letzte Eigentum gelöscht werden.", "This ownership lies between two other ownership periods. Only the first or the last ownership can be deleted.")
    } else if i == 201 {
        ("ERR_BUILDING_OWNER_LAST_DELETE", "Der letzte Gebäudeeigentümer kann nicht gelöscht werden, solange Wohnungen ohne eigenen Eigentümer auf ihn angewiesen sind.", "The last building owner cannot be deleted while apartments without an owner of their own depend on them.")
    } else if i == 202 {
        ("ERR_BUILDING_OWNER_MIDDLE_DELETE", "Dieses Gebäudeeigentum liegt zwischen zwei anderen Eigentümerzeiträumen. Es kann nur das erste oder das letzte Eigentum gelöscht werden.", "This building ownership lies between two other ownership periods. Only the first or the last ownership can be deleted.")
    } else if i == 203 {
        ("ERR_APARTMENT_REQUIRES_OWNER", "Eine Wohnung muss mindestens ein Eigentum haben. Legen Sie die Wohnung zusammen mit ihrem ersten Eigentümer an, oder legen Sie zuerst einen Eigentümer für das gesamte Gebäude an.", "An apartment must have at least one ownership. Create the apartment together with its first owner, or first record an owner for the whole building.")
    } else if i == 204 {
        ("ERR_OWNERSHIP_REQUIRES_PERSON", "Ein Eigentum muss einer Person zugeordnet sein.", "An ownership must belong to a person.")
    } else if i == 205 {
        ("ERR_BUILDING_OWNER_REQUIRES_PERSON", "Ein Gebäudeeigentum muss einer Person zugeordnet sein.", "A building ownership must belong to a person.")
    } else if i == 206 {
        ("ERR_TENANCY_REQUIRES_PERSON", "Ein Mietverhältnis muss einer Person zugeordnet sein.", "A tenancy must belong to a person.")
    } else if i == 207 {
        ("ERR_ADMIN_REQUIRES_PERSON", "Ein Ansprechpartner muss einer Person zugeordnet sein.", "A contact person must belong to a person.")
    } else if i == 208 {
        ("ERR_PERSON_EMAIL_TAKEN", "Eine Person mit dieser E-Mail-Adresse existiert bereits.", "A person with this e-mail address already exists.")
    } else if i == 209 {
        ("ERR_OWNERSHIP_FORBIDDEN_WHEN_BUILDING_OWNER", "Eine Wohnung eines Gebäudes mit Gebäudeeigentümer kann keinen eigenen Eigentümer haben.", "An apartment of a building with a building owner cannot have an owner of its own.")
    } else if i == 210 {
        ("ERR_BUILDING_OWNER_FORBIDDEN_WHEN_APARTMENT_OWNERS", "Ein Gebäude, dessen Wohnungen eigene Eigentümer haben, kann keinen Gebäudeeigentümer haben.", "A building whose apartments have owners of their own cannot have a building owner.")
    } else if i == 211 {
        ("ERR_OWNERSHIP_CURRENT_DELETE", "Das Eigentum, das die Wohnung derzeit abdeckt, kann nicht gelöscht werden. Beenden Sie den Zeitraum stattdessen oder legen Sie zuerst einen neuen Eigentümer an.", "The ownership currently covering the apartment cannot be deleted. End the period instead, or first record a new owner.")
    } else if i == 212 {
        ("ERR_BUILDING_OWNER_CURRENT_DELETE", "Der Gebäudeeigentümer, der das Gebäude derzeit abdeckt, kann nicht gelöscht werden, solange Wohnungen auf ihn angewiesen sind. Beenden Sie den Zeitraum stattdessen oder legen Sie zuerst einen Nachfolger an.", "The building owner currently covering the building cannot be deleted while apartments depend on them. End the period instead, or first record a successor.")
    } else {
        ("", "", "")
    }
}

/// Entry `i` of the catalog (see [`catalog`]).
#[verifier::rlimit(50)]
pub fn catalog_entry(i: usize) -> (res: (&'static str, &'static str, &'static str))
    requires
        i < CATALOG_LEN,
    ensures
        res == catalog(i as int),
{
    proof {
        reveal(catalog);
    }
    match i {
        0 => ("nav.buildings", "Gebäude", "Buildings"),
        1 => ("nav.people", "Personen", "People"),
        2 => ("brand.alt", "Kehrkraft-Logo", "Kehrkraft logo"),
        3 => ("lang.switch", "Sprache wählen", "Choose language"),
        4 => ("footer.tagline", "Kehrkraft · Kehrwoche-Rotationsplan", "Kehrkraft · Kehrwoche rotation schedule"),
        5 => ("form.name_max", "(max. 30 Zeichen)", "(max. 30 characters)"),
        6 => ("form.optional", "(optional)", "(optional)"),
        7 => ("form.description", "Beschreibung", "Description"),
        8 => ("form.email", "E-Mail", "E-mail"),
        9 => ("form.ownership_from", "Eigentum ab", "Ownership from"),
        10 => ("common.cancel", "Abbrechen", "Cancel"),
        11 => ("common.edit", "Bearbeiten", "Edit"),
        12 => ("common.delete", "Löschen", "Delete"),
        13 => ("common.save_changes", "Änderungen speichern", "Save changes"),
        14 => ("common.yes_end_anyway", "Ja, dennoch beenden", "Yes, end it anyway"),
        15 => ("common.no_dont_end", "Nein, nicht beenden", "No, don't end it"),
        16 => ("common.not_found", "Nicht gefunden", "Not found"),
        17 => ("table.email", "E-Mail", "E-mail"),
        18 => ("table.start", "Beginn", "Start"),
        19 => ("table.end", "Ende", "End"),
        20 => ("suggestions.help", "Bekannte Personen erscheinen bei der Eingabe als Vorschlag; dieselbe E-Mail-Adresse bedeutet dieselbe Person.", "Known people appear as suggestions while you type; the same e-mail address always means the same person."),
        21 => ("buildings.heading", "Gebäude", "Buildings"),
        22 => ("buildings.new", "Neues Gebäude", "New building"),
        23 => ("buildings.empty", "Noch keine Gebäude.", "No buildings yet."),
        24 => ("buildings.empty_cta", "Lege dein erstes Gebäude an", "Create your first building"),
        25 => ("buildings.delete_confirm", "Dieses Gebäude samt aller Wohnungen löschen?", "Delete this building and all of its apartments?"),
        26 => ("buildings.new_title", "Neues Gebäude anlegen", "Create a new building"),
        27 => ("buildings.edit_title", "Gebäude bearbeiten", "Edit building"),
        28 => ("buildings.contact_label", "Ansprechpartner", "Contact person"),
        29 => ("buildings.new_contact_help", "Beide Felder leer lassen, wenn es keinen Ansprechpartner geben soll. Bekannte Personen erscheinen bei der Eingabe als Vorschlag; dieselbe E-Mail-Adresse bedeutet dieselbe Person.", "Leave both fields empty when there is no contact person. Known people appear as suggestions while you type; the same e-mail address always means the same person."),
        30 => ("buildings.edit_contact_help", "Beide Felder leer lassen, um den bisherigen Ansprechpartner zu behalten. Bekannte Personen erscheinen bei der Eingabe als Vorschlag; dieselbe E-Mail-Adresse bedeutet dieselbe Person.", "Leave both fields empty to keep the current contact person. Known people appear as suggestions while you type; the same e-mail address always means the same person."),
        31 => ("buildings.ownership_label", "Eigentumsverhältnisse", "Ownership structure"),
        32 => ("buildings.ownership_help", "Entscheiden Sie sich für eine der beiden Formen – die Aufteilung eines von einer Person besessenen Gebäudes in einzelne Eigentumswohnungen (WEG) wird von Kehrkraft nicht unterstützt.", "Choose one of the two forms – splitting a building owned by a single person into individually owned apartments (WEG) is not supported by Kehrkraft."),
        33 => ("buildings.style_apartments", "Einzelne Wohnungen: Jede Wohnung gehört einer eigenen Person oder Gesellschaft (WEG). Beim Anlegen jeder Wohnung ist ihr erster Eigentümer anzugeben.", "Individual apartments: each apartment belongs to its own person or company (WEG). When creating an apartment, its first owner must be provided."),
        34 => ("buildings.style_building", "Ein Gebäudeeigentümer: Eine Person oder Gesellschaft besitzt das ganze Gebäude (z. B. eine Wohnungsgesellschaft). Die Wohnungen gehören dann mit zum Gebäude – einzelne Wohnungseigentümer gibt es nicht.", "One building owner: a single person or company owns the whole building (e.g. a housing company). The apartments then come with the building – there are no individual apartment owners."),
        35 => ("buildings.owner_help", "Wer ist der Gebäudeeigentümer? Bekannte Personen erscheinen bei der Eingabe als Vorschlag; dieselbe E-Mail-Adresse bedeutet dieselbe Person.", "Who is the building owner? Known people appear as suggestions while you type; the same e-mail address always means the same person."),
        36 => ("buildings.create", "Gebäude anlegen", "Create building"),
        37 => ("buildings.save", "Gebäude speichern", "Save building"),
        38 => ("buildings.owner_required", "Für ein Gebäude mit einem einzigen Eigentümer müssen Name, E-Mail-Adresse und Beginn („Eigentum ab“) angegeben werden.", "For a building with a single owner, the name, e-mail address and start date (“Ownership from”) must be provided."),
        39 => ("buildings.contact_label_line", "Ansprechpartner:", "Contact person:"),
        40 => ("buildings.public_pdf", "Plan als öffentliches PDF", "Schedule as public PDF"),
        41 => ("buildings.public_ical", "öffentlicher iCal-Feed", "Public iCal feed"),
        42 => ("buildings.schedule_heading", "Kehrwochen-Plan", "Kehrwoche schedule"),
        43 => ("buildings.full_year", "Kompletter Jahresplan", "Full-year schedule"),
        44 => ("buildings.no_upcoming", "Für dieses Jahr sind keine kommenden Wochen mehr eingeplant.", "No upcoming weeks of this year remain scheduled."),
        45 => ("schedule.week", "KW", "CW"),
        46 => ("schedule.from", "von", "From"),
        47 => ("schedule.to", "bis", "To"),
        48 => ("schedule.tenant", "Mieter", "Tenant"),
        49 => ("schedule.unassigned", "Nicht zugewiesen", "Unassigned"),
        50 => ("buildings.apartments_heading", "Wohnungen", "Apartments"),
        51 => ("buildings.saving_order", "Speichere Reihenfolge …", "Saving order …"),
        52 => ("apartments.new", "Neue Wohnung", "New apartment"),
        53 => ("buildings.no_apartments", "Noch keine Wohnungen.", "No apartments yet."),
        54 => ("buildings.sort_hint", "Die Reihenfolge in dieser Liste dient nur der Anzeige; die Kehrwoche-Rotation folgt der Anlage-Reihenfolge der Wohnungen (Badge „Rotation“).", "The order of this list only affects the display; the Kehrwoche rotation follows the apartments' creation order (badge “Rotation”)."),
        55 => ("apartments.drag_title", "Zum Sortieren ziehen", "Drag to sort"),
        56 => ("buildings.building_owners_heading", "Gebäudeeigentümer", "Building owners"),
        57 => ("buildings.owners_blocked", "Nicht möglich, solange Wohnungen eigene Eigentümer haben (WEG).", "Not possible while the apartments have owners of their own (WEG)."),
        58 => ("owners.add", "Eigentümer hinzufügen", "Add owner"),
        59 => ("buildings.no_building_owner", "Kein Eigentümer für das gesamte Gebäude erfasst – dann braucht jede Wohnung einen eigenen Eigentümer.", "No owner is recorded for the building as a whole – each apartment then needs an owner of its own."),
        60 => ("buildings.building_owner_help", "Der Gebäudeeigentümer besitzt alle Wohnungen; einzelne Wohnungseigentümer sind dann nicht erforderlich. Vermietete Wohnungen delegieren die Kehrwoche weiterhin an den Mieter.", "The building owner owns all apartments; individual apartment owners are then not required. Rented apartments still delegate the Kehrwoche to their tenant."),
        61 => ("building_owner.delete_confirm", "Diesen Gebäudeeigentümer löschen?", "Delete this building owner?"),
        62 => ("buildings.owner_chain_help", "Die Zeiträume reihen sich lückenlos aneinander: Ein neuer Eigentümer beginnt am Tag nach dem Ende des vorherigen.", "The periods follow each other seamlessly: a new owner starts on the day after the previous one ends."),
        63 => ("danger_zone.heading", "Gefahrenzone", "Danger zone"),
        64 => ("buildings.rotation_confirm", "Rotations-Versatz dieses Gebäudes ändern? Die Kehrwoche-Zuordnung aller Wochen verschiebt sich sofort – auch für bereits vergangene Wochen.", "Change this building's rotation offset? The Kehrwoche assignment of every week shifts immediately – including past weeks."),
        65 => ("buildings.rotation_label", "Rotations-Versatz", "Rotation offset"),
        66 => ("buildings.rotation_help", "Verschiebt den Beginn der Rotation: Nach jedem Schritt übernimmt die nächste Wohnung die erste Woche (0 = Standard). Gilt sofort für alle Wochen des Plans.", "Shifts the start of the rotation: after each step, the next apartment takes over the first week (0 = default). Applies immediately to every week of the schedule."),
        67 => ("common.apply", "Anwenden", "Apply"),
        68 => ("buildings.delete_help", "Löscht das Gebäude samt aller Wohnungen, Eigentümer und Mietverhältnisse.", "Deletes the building along with all of its apartments, owners and tenancies."),
        69 => ("buildings.delete", "Gebäude löschen", "Delete building"),
        70 => ("schedule.title", "Jahresplan", "Annual schedule"),
        71 => ("schedule.resident_links", "Bewohner-Links", "Resident links"),
        72 => ("schedule.back_to_building", "Zurück zum Gebäude", "Back to the building"),
        73 => ("apartments.new_for", "Neue Wohnung: {0}", "New apartment: {0}"),
        74 => ("apartments.edit_title", "Wohnung bearbeiten", "Edit apartment"),
        75 => ("apartments.save", "Wohnung speichern", "Save apartment"),
        76 => ("apartments.create", "Wohnung anlegen", "Create apartment"),
        77 => ("apartments.first_owner", "Erster Eigentümer", "First owner"),
        78 => ("apartments.building_owned_help", "Das Gebäude gehört als Ganzes dem Gebäudeeigentümer – die Wohnung hat daher keinen eigenen Eigentümer. Einzelne Wohnungseigentümer gibt es erst, wenn das Gebäude in Wohnungseigentum aufgeteilt wird (WEG); das unterstützt Kehrkraft nicht.", "The building belongs as a whole to the building owner – this apartment therefore has no owner of its own. Individual apartment owners only exist once the building is split into condominium units (WEG); Kehrkraft does not support such a split."),
        79 => ("apartments.owner_required_help", "Eine Wohnung braucht immer mindestens einen Eigentümer; der erste wird zusammen mit der Wohnung angelegt.", "An apartment always needs at least one owner; the first one is created together with the apartment."),
        80 => ("apartments.ownership_until", "Eigentum bis", "Ownership until"),
        81 => ("apartments.owners_heading", "Eigentümer", "Owners"),
        82 => ("apartments.no_owners", "Keine Eigentümer erfasst.", "No owners recorded."),
        83 => ("apartments.owner_delete_confirm", "Dieses Eigentum löschen?", "Delete this ownership?"),
        84 => ("apartments.weg_notice", "Das Gebäude gehört als Ganzes dem Gebäudeeigentümer. Eigentümer einzelner Wohnungen gibt es rechtlich nicht, solange das Gebäude nicht in Wohnungseigentum aufgeteilt ist (WEG). Eine solche Aufteilung unterstützt Kehrkraft nicht.", "The building belongs as a whole to the building owner. There are legally no owners of individual apartments unless the building is split into condominium units (WEG). Kehrkraft does not support such a split."),
        85 => ("apartments.owner_confirm_question", "{0} ist derzeit als Eigentümerin bzw. Eigentümer über den {1} hinaus erfasst. Soll das bisherige Eigentum am {2} (dem Tag vor dem neuen Beginn) enden?", "{0} is currently recorded as the owner beyond {1}. Should the previous ownership end on {2} (the day before the new one begins)?"),
        86 => ("apartments.owner_confirm_help", "Wenn Sie das nicht bestätigen, schlägt das Anlegen des neuen Eigentums fehl.", "If you do not confirm this, adding the new ownership will fail."),
        87 => ("apartments.close_previous_owner", "Ja, bisheriges Eigentum beenden und hinzufügen", "Yes, end the previous ownership and add the new one"),
        88 => ("apartments.tenants_heading", "Mieter", "Tenants"),
        89 => ("apartments.tenant_delegation_help", "Besteht während einer Woche ein Mietverhältnis, wird die Kehrwoche an den Mieter delegiert. Überlappende Mietverhältnisse lehnt die Anwendung ab.", "When a tenancy covers a week, the Kehrwoche is delegated to the tenant. Overlapping tenancies are rejected by the application."),
        90 => ("apartments.no_tenancies", "Keine Mietverhältnisse erfasst.", "No tenancies recorded."),
        91 => ("apartments.tenant_delete_confirm", "Dieses Mietverhältnis löschen?", "Delete this tenancy?"),
        92 => ("apartments.add_tenant", "Mieter hinzufügen", "Add tenant"),
        93 => ("apartments.tenant_confirm_question", "Das bisherige Mietverhältnis von {0} besteht derzeit über den {1} hinaus. Soll es am {2} (dem Tag vor dem neuen Mietbeginn) enden?", "The previous tenancy of {0} currently runs beyond {1}. Should it end on {2} (the day before the new tenancy begins)?"),
        94 => ("apartments.tenant_confirm_help", "Wenn Sie das nicht bestätigen, schlägt das Anlegen des neuen Mietverhältnisses fehl.", "If you do not confirm this, adding the new tenancy will fail."),
        95 => ("apartments.close_previous_tenant", "Ja, bisheriges Mietverhältnis beenden und hinzufügen", "Yes, end the previous tenancy and add the new one"),
        96 => ("tenancy.start", "Mietbeginn", "Tenancy from"),
        97 => ("tenancy.end", "Mietende", "Tenancy until"),
        98 => ("apartments.delete_confirm", "Diese Wohnung löschen?", "Delete this apartment?"),
        99 => ("ownership.edit_title", "Eigentümer bearbeiten", "Edit owner"),
        100 => ("ownership.edit_title_with", "Eigentümer bearbeiten: {0}", "Edit owner: {0}"),
        101 => ("ownership.breadcrumb", "Eigentümer: {0}", "Owner: {0}"),
        102 => ("ownership.edit_subtitle", "Wohnung {0} ({1})", "Apartment {0} ({1})"),
        103 => ("ownership.end_warning", "Das Enddatum {0} liegt vor dem heutigen Tag. Ab dem {1} hätte die Wohnung bis zur Erfassung eines neuen Eigentümers keinen Eigentümer mehr.", "The end date {0} lies before today. From {1} on, the apartment would have no owner until a new owner is recorded."),
        104 => ("ownership.end_warning_help", "Wenn Sie das nicht beabsichtigen, wählen Sie „Nein, nicht beenden“ oder ändern Sie das Enddatum.", "If that is not what you intend, choose “No, don't end it” or change the end date."),
        105 => ("ownership.person_help", "Name und E-Mail-Adresse gehören zur Person und gelten damit für alle Zeiträume, in denen sie als Eigentümerin oder Eigentümer geführt wird. Ein neues „Eigentum ab“ muss lückenlos an die übrigen Zeiträume der Wohnung anschließen.", "Name and e-mail address belong to the person and therefore apply to every period in which they are recorded as the owner. A new “Ownership from” date must seamlessly follow the apartment's other periods."),
        106 => ("tenancy.edit_title", "Mieter bearbeiten", "Edit tenant"),
        107 => ("tenancy.edit_title_with", "Mieter bearbeiten: {0}", "Edit tenant: {0}"),
        108 => ("tenancy.breadcrumb", "Mieter: {0}", "Tenant: {0}"),
        109 => ("tenancy.edit_subtitle", "Wohnung {0} ({1})", "Apartment {0} ({1})"),
        110 => ("tenancy.person_help", "Name und E-Mail-Adresse gehören zur Person und gelten damit für alle Zeiträume, in denen sie geführt wird – auch als Eigentümerin oder Eigentümer.", "Name and e-mail address belong to the person and therefore apply to every period in which they are recorded – also as an owner."),
        111 => ("building_owner.new_title", "Gebäudeeigentümer hinzufügen", "Add building owner"),
        112 => ("building_owner.edit_title", "Gebäudeeigentümer bearbeiten", "Edit building owner"),
        113 => ("building_owner.form_help", "Ein Gebäudeeigentümer besitzt alle Wohnungen des Gebäudes; einzelne Wohnungseigentümer sind dann nicht erforderlich.", "A building owner owns all apartments of the building; individual apartment owners are then not required."),
        114 => ("building_owner.confirm_question", "{0} ist derzeit als Gebäudeeigentümer über den {1} hinaus erfasst. Soll das bisherige Gebäudeeigentum am {2} (dem Tag vor dem neuen Beginn) enden?", "{0} is currently recorded as the building owner beyond {1}. Should the previous building ownership end on {2} (the day before the new one begins)?"),
        115 => ("building_owner.confirm_help", "Wenn Sie das nicht bestätigen, schlägt das Anlegen des neuen Gebäudeeigentümers fehl.", "If you do not confirm this, adding the new building owner will fail."),
        116 => ("building_owner.end_warning", "Das Enddatum {0} liegt vor dem heutigen Tag. Ab dem {1} hätte das Gebäude bis zur Erfassung eines neuen Gebäudeeigentümers keinen Eigentümer mehr.", "The end date {0} lies before today. From {1} on, the building would have no owner until a new building owner is recorded."),
        117 => ("building_owner.end_warning_help", "Wenn Sie das nicht beabsichtigen, wählen Sie „Nein, nicht beenden“ oder ändern Sie das Enddatum.", "If that is not what you intend, choose “No, don't end it” or change the end date."),
        118 => ("building_owner.person_help", "Name und E-Mail-Adresse gehören zur Person und gelten damit für alle Zeiträume, in denen sie als Eigentümerin oder Eigentümer geführt wird. Ein neues „Eigentum ab“ muss an den vorherigen Gebäudeeigentümer anschließen.", "Name and e-mail address belong to the person and therefore apply to every period in which they are recorded as the owner. A new “Ownership from” date must follow the previous building owner."),
        119 => ("building_owner.close_previous", "Ja, bisheriges Gebäudeeigentum beenden und hinzufügen", "Yes, end the previous building ownership and add the new one"),
        120 => ("people.subtitle", "Jede Person wird nur einmal geführt – als Eigentümerin oder Eigentümer, Gebäudeeigentümer, Mieterin oder Mieter und Ansprechpartnerin oder Ansprechpartner. Dieselbe E-Mail-Adresse bedeutet dieselbe Person.", "Each person is kept only once – as an owner, building owner, tenant or contact person. The same e-mail address always means the same person."),
        121 => ("people.empty", "Noch keine Personen erfasst. Personen entstehen zusammen mit Eigentum, Mietverhältnissen oder Ansprechpartnern.", "No people recorded yet. People come into being together with ownerships, tenancies or contact persons."),
        122 => ("person.contact_heading", "Kontaktdaten", "Contact details"),
        123 => ("person.email_help", "Die E-Mail-Adresse ist die Identität der Person: Name und Adresse gelten überall dort, wo die Person geführt wird – Eigentum, Mietverhältnisse, Ansprechpartner. Eine Adresse, die bereits einer anderen Person gehört, wird abgelehnt.", "The e-mail address is the person's identity: the name and address apply wherever the person is recorded – ownerships, tenancies, contacts. An address that already belongs to another person is rejected."),
        124 => ("person.roles_heading", "Rollen", "Roles"),
        125 => ("person.no_roles", "Keine Rollen erfasst.", "No roles recorded."),
        126 => ("role.contact", "Ansprechpartner von", "Contact person for"),
        127 => ("role.building_owner", "Gebäudeeigentümer von", "Building owner of"),
        128 => ("role.owner", "Eigentümer von", "Owner of"),
        129 => ("role.tenant", "Mieter von", "Tenant of"),
        130 => ("role.since", "seit {0}", "since {0}"),
        131 => ("role.range", "von {0} bis {1}", "from {0} to {1}"),
        132 => ("role.since_in", "; seit {0}", "; since {0}"),
        133 => ("role.range_in", "; von {0} bis {1}", "; from {0} to {1}"),
        134 => ("role.label.contact", "Ansprechpartner von {0}", "Contact person for {0}"),
        135 => ("role.label.building_owner", "Gebäudeeigentümer von {0}", "Building owner of {0}"),
        136 => ("role.label.owner", "Eigentümer von {0} ({1})", "Owner of {0} ({1})"),
        137 => ("role.label.tenant", "Mieter von {0} ({1})", "Tenant of {0} ({1})"),
        138 => ("people.more_roles", " · +{0} weitere", " · +{0} more"),
        139 => ("ownership.decline_close", "Ohne das bisherige Eigentum von {0} am {1} zu beenden, kann das neue Eigentum nicht angelegt werden.", "Without ending the previous ownership of {0} on {1}, the new ownership cannot be created."),
        140 => ("ownership.gap_dates", "Das Eigentum muss am Tag nach dem Ende des vorherigen Eigentums beginnen; das vorherige Eigentum endet am {0}, der neue Beginn muss am {1} liegen (nicht am {2}).", "The ownership must start on the day after the previous ownership ends; the previous ownership ends on {0}, so the new start must be {1} (not {2})."),
        141 => ("tenancy.decline_close", "Ohne das bisherige Mietverhältnis von {0} am {1} zu beenden, kann das neue Mietverhältnis nicht angelegt werden.", "Without ending the previous tenancy of {0} on {1}, the new tenancy cannot be created."),
        142 => ("building_owner.decline_close", "Ohne das bisherige Gebäudeeigentum von {0} am {1} zu beenden, kann der neue Gebäudeeigentümer nicht angelegt werden.", "Without ending the previous building ownership of {0} on {1}, the new building owner cannot be created."),
        143 => ("building_owner.gap_dates", "Das Gebäudeeigentum muss am Tag nach dem Ende des vorherigen Gebäudeeigentums beginnen; das vorherige Gebäudeeigentum endet am {0}, der neue Beginn muss am {1} liegen (nicht am {2}).", "The building ownership must start on the day after the previous building ownership ends; the previous building ownership ends on {0}, so the new start must be {1} (not {2})."),
        144 => ("error.not_found", "Nicht gefunden", "Not found"),
        145 => ("error.buildings_load", "Gebäude konnten nicht geladen werden.", "The buildings could not be loaded."),
        146 => ("error.building_load", "Gebäude konnte nicht geladen werden.", "The building could not be loaded."),
        147 => ("error.building_create", "Gebäude konnte nicht angelegt werden.", "The building could not be created."),
        148 => ("error.building_save", "Gebäude konnte nicht gespeichert werden.", "The building could not be saved."),
        149 => ("error.apartments_load", "Wohnungen konnten nicht geladen werden.", "The apartments could not be loaded."),
        150 => ("error.apartment_load", "Wohnung konnte nicht geladen werden.", "The apartment could not be loaded."),
        151 => ("error.apartment_create", "Wohnung konnte nicht angelegt werden.", "The apartment could not be created."),
        152 => ("error.apartment_save", "Wohnung konnte nicht gespeichert werden.", "The apartment could not be saved."),
        153 => ("error.apartment_data_load", "Wohnungsdaten konnten nicht geladen werden.", "The apartment data could not be loaded."),
        154 => ("error.building_owners_load", "Gebäudeeigentümer konnten nicht geladen werden.", "The building owners could not be loaded."),
        155 => ("error.building_owner_load", "Gebäudeeigentümer konnte nicht geladen werden.", "The building owner could not be loaded."),
        156 => ("error.building_owner_create", "Gebäudeeigentümer konnte nicht angelegt werden.", "The building owner could not be created."),
        157 => ("error.building_owner_save", "Gebäudeeigentümer konnte nicht gespeichert werden.", "The building owner could not be saved."),
        158 => ("error.building_owner_delete", "Gebäudeeigentümer konnte nicht gelöscht werden.", "The building owner could not be deleted."),
        159 => ("error.schedule_compute", "Der Plan konnte nicht berechnet werden.", "The schedule could not be computed."),
        160 => ("error.ownership_load", "Eigentum konnte nicht geladen werden.", "The ownership could not be loaded."),
        161 => ("error.ownership_create", "Eigentum konnte nicht angelegt werden.", "The ownership could not be created."),
        162 => ("error.ownership_save", "Eigentum konnte nicht gespeichert werden.", "The ownership could not be saved."),
        163 => ("error.ownership_delete", "Eigentum konnte nicht gelöscht werden.", "The ownership could not be deleted."),
        164 => ("error.ownership_structure_load", "Eigentumsverhältnisse konnten nicht geladen werden.", "The ownership structure could not be loaded."),
        165 => ("error.tenancy_load", "Mietverhältnis konnte nicht geladen werden.", "The tenancy could not be loaded."),
        166 => ("error.tenancy_create", "Mietverhältnis konnte nicht angelegt werden.", "The tenancy could not be created."),
        167 => ("error.tenancy_save", "Mietverhältnis konnte nicht gespeichert werden.", "The tenancy could not be saved."),
        168 => ("error.people_load", "Personen konnten nicht geladen werden.", "The people could not be loaded."),
        169 => ("error.person_load", "Person konnte nicht geladen werden.", "The person could not be loaded."),
        170 => ("error.person_save", "Person konnte nicht gespeichert werden.", "The person could not be saved."),
        171 => ("error.roles_load", "Rollen konnten nicht geladen werden.", "The roles could not be loaded."),
        172 => ("error.rotation_save", "Rotations-Versatz konnte nicht gespeichert werden.", "The rotation offset could not be saved."),
        173 => ("error.apartment_order", "Ungültige Reihenfolge der Wohnungen", "Invalid apartment order"),
        174 => ("error.order_save", "Die Reihenfolge konnte nicht gespeichert werden.", "The order could not be saved."),
        175 => ("error.apartments_reload", "Wohnungen konnten nicht neu geladen werden.", "The apartments could not be reloaded."),
        176 => ("demo.banner", "Demo-Modus", "Demo mode"),
        177 => ("pdf.col_from", "von", "From"),
        178 => ("pdf.col_to", "bis", "To"),
        179 => ("pdf.qr_pdf", "Kehrwoche-PDF per QR öffnen", "Open the Kehrwoche PDF via QR code"),
        180 => ("pdf.qr_ical", "Kalender-Feed per QR abonnieren", "Subscribe to the calendar feed via QR code"),
        181 => ("pdf.footer_created", "Erstellt mit Kehrkraft v{0}", "Created with Kehrkraft v{0}"),
        182 => ("pdf.footer_as_of", "Stand: {0}", "As of {0}"),
        183 => ("ical.summary", "Kehrwoche KW {0}: {1}", "Kehrwoche CW {0}: {1}"),
        184 => ("ical.building", "Gebäude: {0}", "Building: {0}"),
        185 => ("ERR_NAME_EMPTY", "Name darf nicht leer sein.", "The name must not be empty."),
        186 => ("ERR_NAME_TOO_LONG", "Name darf höchstens 30 Zeichen haben.", "The name must not exceed 30 characters."),
        187 => ("ERR_EMAIL_AT", "Die E-Mail-Adresse muss ein '@' enthalten.", "The e-mail address must contain an '@'."),
        188 => ("ERR_EMAIL_DOT", "Die E-Mail-Adresse muss nach dem '@' einen Punkt enthalten.", "The part of the e-mail address after the '@' must contain a dot."),
        189 => ("ERR_START_DATE_FORMAT", "Startdatum muss im Format JJJJ-MM-TT vorliegen.", "The start date must use the format YYYY-MM-DD."),
        190 => ("ERR_END_DATE_FORMAT", "Enddatum muss im Format JJJJ-MM-TT vorliegen.", "The end date must use the format YYYY-MM-DD."),
        191 => ("ERR_START_AFTER_END", "Das Startdatum darf nicht nach dem Enddatum liegen.", "The start date must not lie after the end date."),
        192 => ("ERR_OWNERSHIP_OVERLAP", "Das Eigentum überschneidet ein bestehendes Eigentum dieser Wohnung", "The ownership overlaps an existing ownership of this apartment"),
        193 => ("ERR_TENANCY_OVERLAP", "Das Mietverhältnis überschneidet ein bestehendes Mietverhältnis dieser Wohnung.", "The tenancy overlaps an existing tenancy of this apartment."),
        194 => ("ERR_BUILDING_OWNER_OVERLAP", "Das Gebäudeeigentum überschneidet ein bestehendes Gebäudeeigentum", "The building ownership overlaps an existing building ownership"),
        195 => ("ERR_OWNERSHIP_GAP_NEXT_START", "Das Eigentum muss am Tag nach dem Ende des vorherigen Eigentums beginnen; sonst bliebe ein Zeitraum ohne Eigentümer.", "The ownership must start on the day after the previous ownership ends; otherwise there would be a period without an owner."),
        196 => ("ERR_BUILDING_OWNER_GAP_NEXT_START", "Das Gebäudeeigentum muss am Tag nach dem Ende des vorherigen Gebäudeeigentums beginnen; sonst bliebe ein Zeitraum ohne Eigentümer.", "The building ownership must start on the day after the previous building ownership ends; otherwise there would be a period without an owner."),
        197 => ("ERR_OWNERSHIP_GAP_PREV_END", "Das Eigentum muss am Tag vor dem Beginn des nächsten Eigentums enden; sonst bliebe ein Zeitraum ohne Eigentümer.", "The ownership must end on the day before the next ownership begins; otherwise there would be a period without an owner."),
        198 => ("ERR_BUILDING_OWNER_GAP_PREV_END", "Das Gebäudeeigentum muss am Tag vor dem Beginn des nächsten Gebäudeeigentums enden; sonst bliebe ein Zeitraum ohne Eigentümer.", "The building ownership must end on the day before the next building ownership begins; otherwise there would be a period without an owner."),
        199 => ("ERR_OWNERSHIP_LAST_DELETE", "Das letzte Eigentum einer Wohnung kann nicht gelöscht werden, sonst hat die Wohnung keinen Eigentümer.", "The last ownership of an apartment cannot be deleted, or the apartment would have no owner."),
        200 => ("ERR_OWNERSHIP_MIDDLE_DELETE", "Dieses Eigentum liegt zwischen zwei anderen Eigentümerzeiträumen. Es kann nur das erste oder das letzte Eigentum gelöscht werden.", "This ownership lies between two other ownership periods. Only the first or the last ownership can be deleted."),
        201 => ("ERR_BUILDING_OWNER_LAST_DELETE", "Der letzte Gebäudeeigentümer kann nicht gelöscht werden, solange Wohnungen ohne eigenen Eigentümer auf ihn angewiesen sind.", "The last building owner cannot be deleted while apartments without an owner of their own depend on them."),
        202 => ("ERR_BUILDING_OWNER_MIDDLE_DELETE", "Dieses Gebäudeeigentum liegt zwischen zwei anderen Eigentümerzeiträumen. Es kann nur das erste oder das letzte Eigentum gelöscht werden.", "This building ownership lies between two other ownership periods. Only the first or the last ownership can be deleted."),
        203 => ("ERR_APARTMENT_REQUIRES_OWNER", "Eine Wohnung muss mindestens ein Eigentum haben. Legen Sie die Wohnung zusammen mit ihrem ersten Eigentümer an, oder legen Sie zuerst einen Eigentümer für das gesamte Gebäude an.", "An apartment must have at least one ownership. Create the apartment together with its first owner, or first record an owner for the whole building."),
        204 => ("ERR_OWNERSHIP_REQUIRES_PERSON", "Ein Eigentum muss einer Person zugeordnet sein.", "An ownership must belong to a person."),
        205 => ("ERR_BUILDING_OWNER_REQUIRES_PERSON", "Ein Gebäudeeigentum muss einer Person zugeordnet sein.", "A building ownership must belong to a person."),
        206 => ("ERR_TENANCY_REQUIRES_PERSON", "Ein Mietverhältnis muss einer Person zugeordnet sein.", "A tenancy must belong to a person."),
        207 => ("ERR_ADMIN_REQUIRES_PERSON", "Ein Ansprechpartner muss einer Person zugeordnet sein.", "A contact person must belong to a person."),
        208 => ("ERR_PERSON_EMAIL_TAKEN", "Eine Person mit dieser E-Mail-Adresse existiert bereits.", "A person with this e-mail address already exists."),
        209 => ("ERR_OWNERSHIP_FORBIDDEN_WHEN_BUILDING_OWNER", "Eine Wohnung eines Gebäudes mit Gebäudeeigentümer kann keinen eigenen Eigentümer haben.", "An apartment of a building with a building owner cannot have an owner of its own."),
        210 => ("ERR_BUILDING_OWNER_FORBIDDEN_WHEN_APARTMENT_OWNERS", "Ein Gebäude, dessen Wohnungen eigene Eigentümer haben, kann keinen Gebäudeeigentümer haben.", "A building whose apartments have owners of their own cannot have a building owner."),
        211 => ("ERR_OWNERSHIP_CURRENT_DELETE", "Das Eigentum, das die Wohnung derzeit abdeckt, kann nicht gelöscht werden. Beenden Sie den Zeitraum stattdessen oder legen Sie zuerst einen neuen Eigentümer an.", "The ownership currently covering the apartment cannot be deleted. End the period instead, or first record a new owner."),
        212 => ("ERR_BUILDING_OWNER_CURRENT_DELETE", "Der Gebäudeeigentümer, der das Gebäude derzeit abdeckt, kann nicht gelöscht werden, solange Wohnungen auf ihn angewiesen sind. Beenden Sie den Zeitraum stattdessen oder legen Sie zuerst einen Nachfolger an.", "The building owner currently covering the building cannot be deleted while apartments depend on them. End the period instead, or first record a successor."),
        _ => ("", "", ""),
    }
}

} // verus!
